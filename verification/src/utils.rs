//! The wall clock, in whole seconds.

use vstd::prelude::*;
use std::time::{Duration, SystemTime, SystemTimeError};

verus! {

/// `std::time::SystemTime`, carried from the clock to the subtraction unread.
#[verifier::external_type_specification]
#[verifier::external_body]
pub struct ExSystemTime(std::time::SystemTime);

/// `std::time::SystemTimeError`: the clock stands before the epoch.
#[verifier::external_type_specification]
#[verifier::external_body]
pub struct ExSystemTimeError(std::time::SystemTimeError);

/// `SystemTime::now`: the present moment. Nothing is known of it.
#[verifier::external_body]
fn system_now() -> (t: SystemTime) {
    SystemTime::now()
}

/// `SystemTime::duration_since` the Unix epoch: the time elapsed since then, or
/// an error where `t` lies before it.
#[verifier::external_body]
fn since_epoch(t: &SystemTime) -> (r: Result<Duration, SystemTimeError>) {
    t.duration_since(SystemTime::UNIX_EPOCH)
}

/// `Duration::as_secs`: the whole seconds of `d`.
#[verifier::external_body]
fn whole_seconds(d: &Duration) -> (s: u64) {
    d.as_secs()
}

/// The low 32 bits of a count of seconds since the epoch, and zero where the
/// clock stands before the epoch.
pub open spec fn clock_reading(elapsed: Option<u64>) -> u32 {
    match elapsed {
        Some(s) => (s % 0x1_0000_0000) as u32,
        None => 0,
    }
}

/// Turns the seconds since the epoch into a 32-bit reading.
pub fn reading_of(elapsed: Option<u64>) -> (r: u32)
    ensures
        r == clock_reading(elapsed),
{
    match elapsed {
        Some(s) => {
            let low: u64 = s & 0xFFFF_FFFF;
            assert(low == s % 0x1_0000_0000 && low <= 0xFFFF_FFFF) by (bit_vector)
                requires
                    low == s & 0xFFFF_FFFF,
            ;
            low as u32
        },
        None => 0,
    }
}

/// The present time in seconds since the Unix epoch, cut to 32 bits; zero
/// where the clock stands before the epoch.
pub fn current_time() -> (r: u32)
    ensures
        exists|elapsed: Option<u64>| r == clock_reading(elapsed),
{
    let now = system_now();
    let elapsed: Option<u64> = match since_epoch(&now) {
        Ok(d) => Some(whole_seconds(&d)),
        Err(_) => None,
    };
    reading_of(elapsed)
}

} // verus!
