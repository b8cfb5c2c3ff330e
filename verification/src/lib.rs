//! Policy decision and session brokering engine for a zero-trust network
//! access control plane.
//!
//! The library decides, for an authenticated principal on an assessed device,
//! whether a protected resource may be reached; it owns the lifecycle of the
//! brokered sessions and mints the signed tokens both connectors verify.

use vstd::prelude::*;

pub mod connector;
pub mod platform;
pub mod policy;
pub mod posture;
pub mod session;
pub mod token;

verus! {

/// The sum of an instant and an offset, clipped to the representable range.
pub open spec fn sat_add_spec(a: i64, b: i64) -> i64 {
    if a + b > i64::MAX {
        i64::MAX
    } else if a + b < i64::MIN {
        i64::MIN
    } else {
        (a + b) as i64
    }
}

/// The earlier of two instants.
pub open spec fn min_i64(a: i64, b: i64) -> i64 {
    if a <= b {
        a
    } else {
        b
    }
}

/// Adds a non-negative duration to an instant, stopping at the largest
/// representable timestamp instead of wrapping.
pub fn saturating_add_i64(a: i64, b: i64) -> (r: i64)
    requires
        b >= 0,
    ensures
        r == sat_add_spec(a, b),
{
    if a > i64::MAX - b {
        i64::MAX
    } else {
        a + b
    }
}

/// Picks the earlier of two instants.
pub fn min64(a: i64, b: i64) -> (r: i64)
    ensures
        r == min_i64(a, b),
{
    if a <= b {
        a
    } else {
        b
    }
}

} // verus!
