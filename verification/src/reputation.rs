//! Bounds checking for reputation changes: a delta is valid exactly when
//! its magnitude stays within the limit for its direction, and the new
//! reputation saturates at zero rather than wrapping.

use vstd::prelude::*;
use crate::sat_add;
use crate::sat_sub;
use crate::saturating_add_u64;

verus! {

/// Whether a signed delta is allowed by the directional limits.
pub open spec fn spec_delta_allowed(delta: i64, max_positive: u64, max_negative: u64) -> bool {
    if delta >= 0 {
        delta <= max_positive
    } else {
        -(delta as int) <= max_negative
    }
}

/// The reputation after applying `delta`, saturating at zero and at the
/// numeric limit.  The delta is applied whether or not it is allowed;
/// validity is reported separately.
pub open spec fn spec_applied_rep(current: u64, delta: i64) -> u64 {
    if delta >= 0 {
        sat_add(current, delta as u64)
    } else {
        sat_sub(current, (-(delta as int)) as u64)
    }
}

/// Checks one reputation change: returns whether it is allowed, the
/// saturated new reputation, and a reason line.  The delta magnitude must
/// be expressible, which excludes the one value whose negation is not.
pub fn verify_reputation_delta(
    current_rep: u64,
    delta: i64,
    max_positive_delta: u64,
    max_negative_delta: u64,
) -> (r: (bool, u64, String))
    requires
        delta != i64::MIN,
    ensures
        r.0 == spec_delta_allowed(delta, max_positive_delta, max_negative_delta),
        r.1 == spec_applied_rep(current_rep, delta),
        r.2@ == if r.0 {
            if delta < 0 && -(delta as int) > current_rep {
                "valid update (saturated at 0)"@
            } else {
                "valid update"@
            }
        } else {
            "delta exceeds allowed limits"@
        },
{
    let is_positive = delta >= 0;
    let abs_delta: u64 = if is_positive {
        delta as u64
    } else {
        (-delta) as u64
    };
    let is_allowed = if is_positive {
        abs_delta <= max_positive_delta
    } else {
        abs_delta <= max_negative_delta
    };
    let new_rep = if is_positive {
        saturating_add_u64(current_rep, abs_delta)
    } else {
        if current_rep >= abs_delta {
            current_rep - abs_delta
        } else {
            0
        }
    };
    let reason: String = if is_allowed {
        if !is_positive && abs_delta > current_rep {
            "valid update (saturated at 0)".to_owned()
        } else {
            "valid update".to_owned()
        }
    } else {
        "delta exceeds allowed limits".to_owned()
    };
    (is_allowed, new_rep, reason)
}

} // verus!
