//! Command intake and action resolution: validates player commands
//! against the map and the turn state, commits actions, and resolves
//! them tick by tick.

use vstd::prelude::*;
use vstd::pervasive::unreached;
use crate::act::{Action, MoveToPoint};
use crate::map::{MapError, SkirmMap};
use crate::point::MapPoint;
use crate::search::{is_ground_path, is_optimal_ground_path, spec_line_of_sight, RASTER_BOUND};
use crate::stats::StatsComp;
use crate::tile::EntityId;
use crate::turn::{next_phase, TurnComp, TurnPhase};

verus! {

/// Damage one resolved attack deals.
pub const ATTACK_DAMAGE: u8 = 50;

/// A player command aimed at a tile of the map.
#[derive(Copy, Clone, PartialEq, Eq, Structural, Debug)]
pub enum Command {
    Move(MapPoint),
    Attack(MapPoint),
}

/// Whether a point's coordinates are small enough for the rasterizer.
pub open spec fn in_raster_bounds(p: MapPoint) -> bool {
    &&& -RASTER_BOUND <= p.x <= RASTER_BOUND
    &&& -RASTER_BOUND <= p.y <= RASTER_BOUND
}

fn point_in_raster_bounds(p: &MapPoint) -> (r: bool)
    ensures
        r == in_raster_bounds(*p),
{
    -RASTER_BOUND <= p.x && p.x <= RASTER_BOUND && -RASTER_BOUND <= p.y && p.y <= RASTER_BOUND
}

/// Whether the entity's phase permits committing an action at all.
pub open spec fn phase_permits_action(phase: TurnPhase) -> bool {
    !(phase is Start || phase is Finish)
}

/// Reasons a well-phased command nevertheless commits only an idle
/// action, leaving the turn state untouched.
pub open spec fn command_degrades(
    map: SkirmMap,
    turn: TurnComp,
    stats: StatsComp,
    current: MapPoint,
    cmd: Command,
) -> bool {
    match cmd {
        Command::Move(target) => {
            ||| !map.spec_has_ground_at(current)
            ||| !map.spec_has_ground_at(target)
            ||| (forall|q: Seq<MapPoint>| !is_ground_path(map, q, current, target))
            ||| current == target
            ||| exists|q: Seq<MapPoint>|
                #[trigger] is_optimal_ground_path(map, q, current, target) && turn.has_moved + q.len()
                    - 1 > stats.move_per_turn
        },
        Command::Attack(target) => {
            ||| !in_raster_bounds(target)
            ||| !spec_line_of_sight(map, (current.x, current.y), (target.x, target.y))
        },
    }
}

/// Turns the pending command of the entity standing at `current` into a
/// committed action.
///
/// When the entity's phase permits no action the command is ignored and
/// left pending: the result is `None` and nothing changes. Otherwise the
/// command is consumed: a reachable move that fits the movement budget
/// commits `MoveTo`, books its cost and advances the phase; an attack
/// with line of sight commits `AttackAt` and advances the phase; every
/// other command degrades to `Idle` and leaves the turn state untouched.
pub fn process_command(
    map: &SkirmMap,
    turn: &mut TurnComp,
    stats: &StatsComp,
    current: MapPoint,
    cmd: &Command,
) -> (r: Option<Action>)
    requires
        in_raster_bounds(current),
    ensures
        r is None <==> !phase_permits_action(old(turn).phase),
        r is None ==> *final(turn) == *old(turn),
        match r {
            None => true,
            Some(a) => match a {
                Action::Idle => {
                    &&& *final(turn) == *old(turn)
                    &&& command_degrades(*map, *old(turn), *stats, current, *cmd)
                },
                Action::MoveTo(mtp) => {
                    let path = mtp.point_stack@;
                    &&& *cmd matches Command::Move(target) && is_optimal_ground_path(
                        *map,
                        seq![current] + path,
                        current,
                        target,
                    )
                    &&& path.len() >= 1
                    &&& old(turn).has_moved + path.len() <= stats.move_per_turn
                    &&& *final(turn) == (TurnComp {
                        has_moved: (old(turn).has_moved + path.len()) as u8,
                        phase: next_phase(old(turn).phase),
                        ..*old(turn)
                    })
                },
                Action::AttackAt(target) => {
                    &&& *cmd == Command::Attack(target)
                    &&& in_raster_bounds(target)
                    &&& spec_line_of_sight(*map, (current.x, current.y), (target.x, target.y))
                    &&& *final(turn) == (TurnComp {
                        phase: next_phase(old(turn).phase),
                        ..*old(turn)
                    })
                },
            },
        },
        phase_permits_action(old(turn).phase) && !command_degrades(
            *map,
            *old(turn),
            *stats,
            current,
            *cmd,
        ) ==> (r matches Some(a) && !(a is Idle)),
        // an attack without line of sight always fails silently: the
        // committed action is idle and the turn state is untouched
        match *cmd {
            Command::Attack(target) => (phase_permits_action(old(turn).phase) && !(
            in_raster_bounds(target) && spec_line_of_sight(
                *map,
                (current.x, current.y),
                (target.x, target.y),
            ))) ==> (r == Some(Action::Idle) && *final(turn) == *old(turn)),
            _ => true,
        },
{
    match turn.phase {
        TurnPhase::Start => return None,
        TurnPhase::Finish => return None,
        _ => {},
    }
    match cmd {
        Command::Move(target) => {
            match map.pathfind(&current, target) {
                None => Some(Action::Idle),
                Some(path) => {
                    if path.len() == 0 {
                        proof {
                            assert((seq![current] + path@).last() == current);
                        }
                        return Some(Action::Idle);
                    }
                    let mtp = MoveToPoint::new(path);
                    match turn.try_update_move(&mtp, stats.move_per_turn) {
                        Ok(()) => {
                            turn.increment();
                            Some(Action::MoveTo(mtp))
                        },
                        Err(()) => {
                            proof {
                                let q = seq![current] + mtp.point_stack@;
                                assert(is_optimal_ground_path(*map, q, current, *target)
                                    && old(turn).has_moved + q.len() - 1 > stats.move_per_turn);
                            }
                            Some(Action::Idle)
                        },
                    }
                },
            }
        },
        Command::Attack(target) => {
            if !point_in_raster_bounds(target) {
                return Some(Action::Idle);
            }
            if map.has_line_of_sight(&current, target) {
                turn.increment();
                Some(Action::AttackAt(*target))
            } else {
                Some(Action::Idle)
            }
        },
    }
}

/// Resolves a committed attack in one tick: whatever entity stands at
/// the targeted point is hit, and the attacker falls back to idle
/// whether or not anything stood there. The caller applies
/// `ATTACK_DAMAGE` to the hit entity's stats.
pub fn resolve_attack(map: &SkirmMap, action: &mut Action) -> (hit: Option<EntityId>)
    requires
        *old(action) is AttackAt,
    ensures
        *final(action) is Idle,
        hit == map.occupant_at(old(action)->AttackAt_0),
{
    let target: MapPoint = match action {
        Action::AttackAt(p) => *p,
        _ => unreached(),
    };
    let hit = map.get_occupant(&target);
    *action = Action::Idle;
    hit
}

/// Moves an entity's occupancy from the tile it stood on to the waypoint
/// it has reached. Fails, changing nothing, when the destination is not
/// free ground or either point is outside the loaded map.
pub fn move_occupant(map: &mut SkirmMap, ent: EntityId, from: MapPoint, to: MapPoint) -> (r:
    Result<(), MapError>)
    ensures
        r is Ok <==> (old(map).spec_has_ground_at(to) && old(map).contains_point(from) && (to
            == from || old(map).occupant_at(to) is None)),
        r is Err ==> *final(map) == *old(map),
        r is Ok ==> forall|q: MapPoint|
            #[trigger] final(map).occupant_at(q) == if q == to {
                Some(ent)
            } else if q == from {
                None::<EntityId>
            } else {
                old(map).occupant_at(q)
            },
        forall|q: MapPoint| final(map).contains_point(q) == old(map).contains_point(q),
        forall|q: MapPoint|
            #[trigger] final(map).spec_has_ground_at(q) == old(map).spec_has_ground_at(q),
        old(map).wf() ==> final(map).wf(),
{
    if !map.has_ground_at(&to) {
        return Err(MapError::PointDoesNotExist);
    }
    if !(to == from) && map.has_occupant(&to) {
        return Err(MapError::Occupied);
    }
    match map.remove_occupant(&from) {
        Err(e) => Err(e),
        Ok(()) => {
            let added = map.add_occupant(ent, to);
            proof {
                assert(added is Ok);
            }
            Ok(())
        },
    }
}

} // verus!
