//! Wall-clock access. The decision rules themselves are pure; everything
//! time-dependent takes the current unix second as an argument, and this
//! module is the one place that reads the real clock.

use vstd::prelude::*;

verus! {

/// Relies on chrono::Utc::now / DateTime::timestamp: the current wall-clock
/// time as whole seconds since the unix epoch. chrono panics if the system
/// clock is set before the epoch; nothing is promised of the value.
#[verifier::external_body]
fn utc_now_unix() -> i64 {
    chrono::Utc::now().timestamp()
}

/// The current unix second, clamped to zero should the clock report a time
/// before the epoch. The result is arbitrary as far as contracts go; callers
/// hand it to the pure decision rules.
pub fn now_unix_secs() -> u64 {
    let t = utc_now_unix();
    if t < 0 {
        0
    } else {
        t as u64
    }
}

} // verus!
