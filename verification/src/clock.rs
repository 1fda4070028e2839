//! Wall-clock reading for transcript timestamps.
use std::time::{Duration, SystemTime, UNIX_EPOCH};
use vstd::prelude::*;

verus! {

#[verifier::external_type_specification]
#[verifier::external_body]
pub struct ExSystemTime(SystemTime);

/// `SystemTime::now`: the current wall-clock time. Nothing is claimed of it:
/// it depends on the machine's clock.
#[verifier::external_body]
fn system_now() -> SystemTime {
    SystemTime::now()
}

/// `SystemTime::duration_since(UNIX_EPOCH)`: the time elapsed since the Unix
/// epoch, `None` where the clock reads earlier than the epoch. Nothing is
/// claimed of the duration.
#[verifier::external_body]
fn since_unix_epoch(t: &SystemTime) -> Option<Duration> {
    t.duration_since(UNIX_EPOCH).ok()
}

/// `Duration::as_millis`: the whole milliseconds of a duration. Nothing is
/// claimed: a `Duration`'s contents are not visible here.
#[verifier::external_body]
fn whole_millis(d: &Duration) -> u128 {
    d.as_millis()
}

/// Milliseconds since the Unix epoch, truncated to 64 bits; 0 when the clock
/// reads earlier than the epoch.
pub(crate) fn now_unix_ms() -> u64 {
    match since_unix_epoch(&system_now()) {
        Some(d) => {
            let ms: u128 = whole_millis(&d);
            #[verifier::truncate]
            (ms as u64)
        },
        None => 0,
    }
}

} // verus!
