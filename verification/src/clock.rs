//! Reading the system clock: the time since 1970 in whole seconds and the
//! sub-second nanoseconds. Nothing is stated of what the clock reads; the
//! functions here say what is made of any reading.
use vstd::prelude::*;

verus! {

/// `std::time::SystemTime`, carried as an opaque value.
#[verifier::external_type_specification]
#[verifier::external_body]
pub struct ExSystemTime(std::time::SystemTime);

/// `std::time::SystemTimeError`, carried as an opaque value.
#[verifier::external_type_specification]
#[verifier::external_body]
pub struct ExSystemTimeError(std::time::SystemTimeError);

/// `SystemTime::now`: the clock's reading.
#[verifier::external_body]
fn system_now() -> std::time::SystemTime {
    std::time::SystemTime::now()
}

/// `SystemTime::duration_since(UNIX_EPOCH)`: how long after 1970 the reading is,
/// or an error where it is earlier.
#[verifier::external_body]
fn since_epoch(t: &std::time::SystemTime) -> Result<std::time::Duration, std::time::SystemTimeError> {
    t.duration_since(std::time::UNIX_EPOCH)
}

/// `SystemTimeError::duration`: how long before 1970 the reading is.
#[verifier::external_body]
fn error_duration(e: &std::time::SystemTimeError) -> std::time::Duration {
    e.duration()
}

/// `Duration::as_secs`: the whole seconds.
#[verifier::external_body]
fn duration_secs(d: &std::time::Duration) -> u64 {
    d.as_secs()
}

/// `Duration::subsec_nanos`: the nanoseconds beyond the whole seconds, which the
/// std documentation says are always below one billion.
#[verifier::external_body]
fn duration_subsec_nanos(d: &std::time::Duration) -> (n: u32)
    ensures
        n < 1_000_000_000,
{
    d.subsec_nanos()
}

/// How far the clock is from 1970-01-01 UTC in whole seconds: `Ok` with the
/// seconds since, or `Err` with the seconds before where it reads earlier.
pub fn clock_since_epoch() -> Result<u64, u64> {
    let now = system_now();
    match since_epoch(&now) {
        Ok(d) => Ok(duration_secs(&d)),
        Err(e) => {
            let d = error_duration(&e);
            Err(duration_secs(&d))
        },
    }
}

/// The sub-second nanoseconds of the clock's reading since 1970, 0 where it
/// reads earlier: below one billion.
pub fn subsec_nanos_now() -> (n: u32)
    ensures
        n < 1_000_000_000,
{
    let now = system_now();
    match since_epoch(&now) {
        Ok(d) => duration_subsec_nanos(&d),
        Err(_) => 0,
    }
}

/// Seconds since 1970 as a signed number, negative before 1970, held to
/// `-i64::MAX ..= i64::MAX`.
pub open spec fn signed_secs(r: Result<u64, u64>) -> int {
    match r {
        Ok(s) => if s <= i64::MAX {
            s as int
        } else {
            i64::MAX as int
        },
        Err(s) => if s <= i64::MAX {
            -(s as int)
        } else {
            -(i64::MAX as int)
        },
    }
}

/// The signed seconds of a clock distance (see [`signed_secs`]).
pub fn signed_unix_secs(r: Result<u64, u64>) -> (t: i64)
    ensures
        t as int == signed_secs(r),
{
    match r {
        Ok(s) => if s <= i64::MAX as u64 {
            s as i64
        } else {
            i64::MAX
        },
        Err(s) => if s <= i64::MAX as u64 {
            -(s as i64)
        } else {
            -i64::MAX
        },
    }
}

/// The current Unix time in whole seconds (see [`signed_unix_secs`]); the value
/// is the clock's.
pub fn unix_now_secs() -> i64 {
    signed_unix_secs(clock_since_epoch())
}

} // verus!
