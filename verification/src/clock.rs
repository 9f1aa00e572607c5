//! Wall-clock access.
//!
//! All timestamps in the library are unsigned milliseconds since the Unix
//! epoch. The scheduler itself never reads the clock: every transition takes
//! the current time as an argument, so its behaviour is fixed by its inputs.
//! Constructors that stamp fresh records read the clock here.

use vstd::prelude::*;

verus! {

/// Relies on chrono::Utc::now, read as milliseconds since the Unix
/// epoch. Nothing is assumed of the value: the clock may move
/// arbitrarily. On a clock set before the epoch chrono itself gives up
/// rather than return, so a negative reading is not expected; the caller
/// still refuses to trust one.
#[verifier::external_body]
fn utc_now_raw_millis() -> i64 {
    chrono::Utc::now().timestamp_millis()
}

/// The current wall-clock time in milliseconds since the Unix epoch.
/// A negative raw reading — not expected, since chrono refuses a
/// pre-epoch clock — is clamped to zero rather than trusted.
pub fn current_time_millis() -> (r: u64) {
    let t = utc_now_raw_millis();
    if t < 0 {
        0
    } else {
        t as u64
    }
}

} // verus!
