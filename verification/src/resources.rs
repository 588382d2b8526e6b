//! Shared per-tick resources.

use vstd::prelude::*;

verus! {

/// How long the last tick took, in nanoseconds.
#[derive(Copy, Clone, PartialEq, Eq, Structural, Debug)]
pub struct DeltaTime {
    pub delta_nanos: u64,
}

} // verus!
