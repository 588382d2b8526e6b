//! Per-entity turn state: phase progression and the movement budget.

use vstd::prelude::*;
use crate::act::MoveToPoint;

verus! {

/// The sub-steps of one entity's turn. `Start` is only an initial marker:
/// once play begins the cycle runs `FirstAction`, `SecondAction`,
/// `BonusAction`, `Finish` and wraps back to `FirstAction`.
#[derive(Copy, Clone, PartialEq, Eq, Structural, Debug)]
pub enum TurnPhase {
    Start,
    FirstAction,
    SecondAction,
    BonusAction,
    Finish,
}

/// The phase that follows `p` once an action is committed. `Start` is
/// never re-entered.
pub open spec fn next_phase(p: TurnPhase) -> TurnPhase {
    match p {
        TurnPhase::Start => TurnPhase::FirstAction,
        TurnPhase::FirstAction => TurnPhase::SecondAction,
        TurnPhase::SecondAction => TurnPhase::BonusAction,
        TurnPhase::BonusAction => TurnPhase::Finish,
        TurnPhase::Finish => TurnPhase::FirstAction,
    }
}

/// An entity's turn state: whether it is the active entity, how many
/// cells it has walked this turn, and its phase.
#[derive(Copy, Clone, PartialEq, Eq, Structural, Debug)]
pub struct TurnComp {
    pub current_turn: bool,
    pub has_moved: u8,
    pub phase: TurnPhase,
}

impl TurnComp {
    /// A fresh turn state: inactive, nothing walked, first action ahead.
    pub fn default() -> (r: Self)
        ensures
            r == (TurnComp { current_turn: false, has_moved: 0, phase: TurnPhase::FirstAction }),
    {
        Self { current_turn: false, has_moved: 0, phase: TurnPhase::FirstAction }
    }

    /// Advances the phase one step around the cycle; called once per
    /// committed action.
    pub fn increment(&mut self)
        ensures
            final(self).phase == next_phase(old(self).phase),
            final(self).current_turn == old(self).current_turn,
            final(self).has_moved == old(self).has_moved,
    {
        self.phase = match self.phase {
            TurnPhase::Start => TurnPhase::FirstAction,
            TurnPhase::FirstAction => TurnPhase::SecondAction,
            TurnPhase::SecondAction => TurnPhase::BonusAction,
            TurnPhase::BonusAction => TurnPhase::Finish,
            TurnPhase::Finish => TurnPhase::FirstAction,
        };
    }

    /// Takes the turn over: called on the entity the whose-turn pointer
    /// advances to, resetting its walked count and its phase.
    pub fn begin_turn(&mut self)
        ensures
            *final(self) == (TurnComp {
                current_turn: true,
                has_moved: 0,
                phase: TurnPhase::FirstAction,
            }),
    {
        self.current_turn = true;
        self.has_moved = 0;
        self.phase = TurnPhase::FirstAction;
    }

    /// Hands the turn on: the entity stops being the active one; its
    /// phase and walked count keep their values until its next turn.
    pub fn end_turn(&mut self)
        ensures
            *final(self) == (TurnComp { current_turn: false, ..*old(self) }),
    {
        self.current_turn = false;
    }

    /// Books the cost of walking `mtp`'s path against the movement
    /// budget: the booking is rejected, and the walked count left
    /// untouched, whenever it would push the count past `max_move`.
    pub fn try_update_move(&mut self, mtp: &MoveToPoint, max_move: u8) -> (r: Result<(), ()>)
        ensures
            r is Ok <==> old(self).has_moved + mtp.point_stack@.len() <= max_move,
            r is Ok ==> *final(self) == (TurnComp {
                has_moved: (old(self).has_moved + mtp.point_stack@.len()) as u8,
                ..*old(self)
            }),
            r is Err ==> *final(self) == *old(self),
            final(self).has_moved <= max_move || final(self).has_moved == old(self).has_moved,
    {
        let number_of_moves = mtp.point_stack.len();
        if self.has_moved <= max_move && number_of_moves <= (max_move - self.has_moved) as usize {
            self.has_moved = self.has_moved + number_of_moves as u8;
            Ok(())
        } else {
            Err(())
        }
    }
}

/// The roster index whose turn comes after `current`, wrapping past the
/// end of the roster back to the first entry.
pub fn next_active(roster_len: usize, current: usize) -> (r: usize)
    requires
        roster_len > 0,
        current < roster_len,
    ensures
        r == (current + 1) % (roster_len as int),
        r < roster_len,
{
    if current + 1 == roster_len {
        proof {
            assert(roster_len as int % roster_len as int == 0) by (nonlinear_arith)
                requires
                    roster_len > 0,
            ;
        }
        0
    } else {
        proof {
            assert((current + 1) % (roster_len as int) == current + 1) by (nonlinear_arith)
                requires
                    0 <= current + 1 < roster_len,
            ;
        }
        current + 1
    }
}

/// The action phases cycle with period four: from `FirstAction` repeated
/// advancement visits `SecondAction`, `BonusAction`, `Finish` and comes
/// back to `FirstAction`, and `Start` is never visited again.
pub proof fn lemma_phase_cycle(p: TurnPhase)
    ensures
        next_phase(TurnPhase::FirstAction) == TurnPhase::SecondAction,
        next_phase(TurnPhase::SecondAction) == TurnPhase::BonusAction,
        next_phase(TurnPhase::BonusAction) == TurnPhase::Finish,
        next_phase(TurnPhase::Finish) == TurnPhase::FirstAction,
        p != TurnPhase::Start ==> next_phase(next_phase(next_phase(next_phase(p)))) == p,
        next_phase(p) != TurnPhase::Start,
{
}

} // verus!
