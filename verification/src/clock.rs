//! The wall clock, in whole seconds since the Unix epoch.

use vstd::prelude::*;

verus! {

/// `std::time::SystemTime`, carried through opaquely.
#[verifier::external_type_specification]
#[verifier::external_body]
pub struct ExSystemTime(std::time::SystemTime);

/// `std::time::SystemTimeError`, carried through opaquely.
#[verifier::external_type_specification]
#[verifier::external_body]
pub struct ExSystemTimeError(std::time::SystemTimeError);

/// Reads the system clock (`std::time::SystemTime::now`); nothing is stated of
/// the reading, which depends on the moment of the call.
#[verifier::external_body]
fn system_now() -> std::time::SystemTime {
    std::time::SystemTime::now()
}

/// The time from the Unix epoch to `t` (`SystemTime::duration_since`); an error
/// when `t` is earlier. Nothing is stated of the result, which depends on the
/// reading.
#[verifier::external_body]
fn since_unix_epoch(t: &std::time::SystemTime) -> Result<core::time::Duration, std::time::SystemTimeError> {
    t.duration_since(std::time::UNIX_EPOCH)
}

/// The whole seconds of a duration (`Duration::as_secs`); durations are opaque
/// here, so nothing is stated of the number.
#[verifier::external_body]
fn whole_seconds(d: &core::time::Duration) -> u64 {
    d.as_secs()
}

/// The current time in whole seconds since the Unix epoch; 0 when the clock reads
/// earlier than the epoch.
pub fn now_secs() -> u64 {
    let now = system_now();
    match since_unix_epoch(&now) {
        Ok(elapsed) => whole_seconds(&elapsed),
        Err(_) => 0,
    }
}

} // verus!
