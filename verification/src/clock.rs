//! Wall-clock timestamps in whole seconds since the Unix epoch.

use std::time::{Duration, SystemTime, SystemTimeError};
use vstd::prelude::*;

verus! {

#[verifier::external_type_specification]
#[verifier::external_body]
pub struct ExSystemTime(SystemTime);

#[verifier::external_type_specification]
#[verifier::external_body]
pub struct ExSystemTimeError(SystemTimeError);

/// Calls `std::time::SystemTime::now`. The reading depends on the machine's
/// clock, so nothing is claimed about it.
#[verifier::external_body]
fn clock_now() -> SystemTime {
    SystemTime::now()
}

/// Calls `SystemTime::duration_since` with `UNIX_EPOCH` as the earlier time.
/// Whether it fails (the clock reads before the epoch) and what it returns
/// depend on the clock reading, so nothing is claimed.
#[verifier::external_body]
fn elapsed_since_epoch(t: &SystemTime) -> Result<Duration, SystemTimeError> {
    t.duration_since(std::time::UNIX_EPOCH)
}

/// Calls `Duration::as_secs`: the whole seconds of the duration. A `Duration`
/// is opaque here, so the result is not tied to anything.
#[verifier::external_body]
fn whole_seconds(d: &Duration) -> u64 {
    d.as_secs()
}

/// The timestamp stored for an elapsed time since the epoch: `None` stands for a
/// clock that reads before the epoch, which counts as zero; a count of seconds is
/// reinterpreted as a signed 64-bit number (two's complement).
pub open spec fn timestamp_of(elapsed: Option<u64>) -> int {
    match elapsed {
        Some(s) => if s <= i64::MAX { s as int } else { s - 0x1_0000_0000_0000_0000 },
        None => 0,
    }
}

/// Converts an elapsed time since the epoch into the stored timestamp.
pub fn timestamp_from_elapsed(elapsed: Option<u64>) -> (t: i64)
    ensures
        t == timestamp_of(elapsed),
{
    match elapsed {
        Some(s) => {
            let t = s as i64;
            assert(s <= 0x7fff_ffff_ffff_ffff ==> t == s) by (bit_vector)
                requires
                    t == s as i64,
            ;
            assert(s > 0x7fff_ffff_ffff_ffff ==> t == s - 0x1_0000_0000_0000_0000) by (bit_vector)
                requires
                    t == s as i64,
            ;
            t
        },
        None => 0,
    }
}

/// Seconds since the Unix epoch by the system clock; zero when the clock reads
/// before the epoch.
pub fn now_secs() -> (secs: i64)
    ensures
        secs == timestamp_of(None) || exists|s: u64| secs == timestamp_of(Some(s)),
{
    let now = clock_now();
    let elapsed = match elapsed_since_epoch(&now) {
        Ok(d) => Some(whole_seconds(&d)),
        Err(_) => None,
    };
    timestamp_from_elapsed(elapsed)
}

} // verus!
