use vstd::prelude::*;
use std::time::{Duration, SystemTime};

verus! {

/// std's system clock reading.
#[verifier::external_type_specification]
#[verifier::external_body]
pub struct ExSystemTime(std::time::SystemTime);

/// Relies on std's `SystemTime::now`: the system clock's reading. Nothing is
/// known of it.
#[verifier::external_body]
fn system_now() -> SystemTime {
    SystemTime::now()
}

/// Relies on std's `SystemTime::duration_since` with `UNIX_EPOCH`: the time
/// since 1970, or `None` for a reading before it, for which std returns an
/// error. Nothing is known of the duration.
#[verifier::external_body]
fn since_unix_epoch(t: &SystemTime) -> Option<Duration> {
    match t.duration_since(std::time::UNIX_EPOCH) {
        Ok(d) => Some(d),
        Err(_) => None,
    }
}

/// Relies on std's `Duration::as_millis`: the whole milliseconds of a
/// duration. Nothing is known of the value.
#[verifier::external_body]
fn whole_millis(d: &Duration) -> u128 {
    d.as_millis()
}

/// The epoch milliseconds of a clock reading, given the whole milliseconds
/// since 1970 (`None` for a reading before 1970): 0 before 1970, and
/// `u64::MAX` for a reading beyond what `u64` holds.
pub fn epoch_millis_from(since: Option<u128>) -> (r: u64)
    ensures
        r == match since {
            None => 0u64,
            Some(ms) => if ms > u64::MAX as u128 {
                u64::MAX
            } else {
                ms as u64
            },
        },
{
    match since {
        Some(ms) => if ms > u64::MAX as u128 {
            u64::MAX
        } else {
            ms as u64
        },
        None => 0,
    }
}

/// The current time in milliseconds since the Unix epoch, as
/// `epoch_millis_from` gives it for the system clock's reading.
pub fn now_epoch_millis() -> u64 {
    let now = system_now();
    let since = match since_unix_epoch(&now) {
        Some(d) => Some(whole_millis(&d)),
        None => None,
    };
    epoch_millis_from(since)
}

} // verus!
