//! Trusted boundary to the machine: the clock and the operating-system
//! version lookup. Everything the engine decides from these values is done
//! by verified functions that take them as arguments.

use vstd::prelude::*;

verus! {

/// Relies on chrono's `Utc::now`: reads the wall clock. Nothing is promised
/// of the value; callers treat any timestamp that comes back as possible.
#[verifier::external_body]
pub fn now_timestamp() -> i64 {
    chrono::Utc::now().timestamp()
}

/// Relies on os_info's `get`: reads the running system's version string.
/// The value depends on the machine, so nothing is promised of it.
#[verifier::external_body]
pub fn current_os_version() -> String {
    os_info::get().version().to_string()
}

} // verus!
