//! Entity brain and match-learning engine.
//!
//! Competitive agents ("entities") accumulate memory, build pairwise trust
//! relationships, adapt a competition strategy, and improve skills over
//! repeated simulated matches.  All scalar quantities that the learning rules
//! touch are exact fixed-point integers; each field documents its denominator.

use vstd::prelude::*;

pub mod brain;
pub mod dsl_compiler;
pub mod entity;
pub mod host;
pub mod reputation;
pub mod scoring;
pub mod simulator;
pub mod smart_entity;
pub mod store;
pub mod text;

verus! {

/// Saturating addition on `u64`, used by the monotone counters of the engine:
/// a counter that would pass the numeric limit stays at the limit.
pub open spec fn sat_add(a: u64, b: u64) -> u64 {
    if a + b <= u64::MAX {
        (a + b) as u64
    } else {
        u64::MAX
    }
}

/// Saturating subtraction on `u64`: a value that would drop below zero
/// stays at zero.
pub open spec fn sat_sub(a: u64, b: u64) -> u64 {
    if a >= b {
        (a - b) as u64
    } else {
        0
    }
}

/// Executable counterpart of [`sat_add`].
pub fn saturating_add_u64(a: u64, b: u64) -> (r: u64)
    ensures
        r == sat_add(a, b),
{
    if a <= u64::MAX - b {
        a + b
    } else {
        u64::MAX
    }
}

} // verus!
