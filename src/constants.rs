use vstd::prelude::*;

verus! {

/// Shortest vesting period accepted at creation: one day, in seconds.
pub const MIN_VESTING_DURATION: i64 = 86_400;

/// Longest vesting period accepted at creation: ten years, in seconds.
pub const MAX_VESTING_DURATION: i64 = 315_360_000;

/// Largest cliff accepted, as a truncated percentage of the vesting period.
pub const MAX_CLIFF_PERCENTAGE: u64 = 50;

} // verus!
