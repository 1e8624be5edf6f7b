//! Wall-clock time in milliseconds since the Unix epoch, used to stamp
//! stored records.
use vstd::prelude::*;
use std::time::{Duration, SystemTime, SystemTimeError};

verus! {

#[verifier::external_type_specification]
#[verifier::external_body]
pub struct ExSystemTime(SystemTime);

#[verifier::external_type_specification]
#[verifier::external_body]
pub struct ExSystemTimeError(SystemTimeError);

/// Relies on `SystemTime::now`: the current time, whatever it is.
pub assume_specification[ SystemTime::now ]() -> SystemTime;

/// Relies on `SystemTime::duration_since`: an error when `earlier` is later
/// than `self`.
pub assume_specification[ SystemTime::duration_since ](
    this: &SystemTime,
    earlier: SystemTime,
) -> Result<Duration, SystemTimeError>;

/// Relies on `Duration::as_millis`: the whole milliseconds of the duration.
pub assume_specification[ Duration::as_millis ](this: &Duration) -> u128;

/// Relies on `std::time::UNIX_EPOCH`: the epoch as a `SystemTime`.
#[verifier::external_body]
fn unix_epoch() -> SystemTime {
    std::time::UNIX_EPOCH
}

/// Milliseconds since the Unix epoch by the system clock, truncated to `i64`;
/// zero when the clock reads before the epoch.
pub fn now_unix_ms() -> i64 {
    match SystemTime::now().duration_since(unix_epoch()) {
        Ok(d) => #[verifier::truncate] (d.as_millis() as i64),
        Err(_) => 0,
    }
}

} // verus!
