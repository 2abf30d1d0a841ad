//! The wall clock, read as whole seconds since the Unix epoch.

use std::time::Duration;
use std::time::SystemTime;
use std::time::SystemTimeError;
use std::time::UNIX_EPOCH;
use vstd::prelude::*;

verus! {

/// Declares `std::time::SystemTime` as an opaque type.
#[verifier::external_type_specification]
#[verifier::external_body]
pub struct ExSystemTime(std::time::SystemTime);

/// Declares `std::time::SystemTimeError` as an opaque type.
#[verifier::external_type_specification]
#[verifier::external_body]
pub struct ExSystemTimeError(std::time::SystemTimeError);

/// Calls `SystemTime::now`. Nothing is claimed of the instant it returns.
#[verifier::external_body]
fn system_now() -> (now: SystemTime) {
    SystemTime::now()
}

/// Calls `SystemTime::duration_since` with `UNIX_EPOCH` as the earlier
/// instant. Nothing is claimed of the outcome: it is an error when `instant`
/// lies before the epoch.
#[verifier::external_body]
fn since_unix_epoch(instant: &SystemTime) -> (elapsed: Result<Duration, SystemTimeError>) {
    instant.duration_since(UNIX_EPOCH)
}

/// Calls `Duration::as_secs`. Nothing is claimed of the number it returns.
#[verifier::external_body]
fn whole_seconds(elapsed: &Duration) -> (secs: u64) {
    elapsed.as_secs()
}

/// The current time in whole seconds since the Unix epoch, or `None` when
/// the system clock stands before the epoch.
pub(crate) fn unix_timestamp() -> (secs: Option<u64>) {
    let now = system_now();
    match since_unix_epoch(&now) {
        Ok(elapsed) => Some(whole_seconds(&elapsed)),
        Err(_) => None,
    }
}

} // verus!
