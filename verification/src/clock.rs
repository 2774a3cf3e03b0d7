use vstd::prelude::*;

verus! {

/// The latest instant the library works with, in milliseconds since the
/// Unix epoch: past the last instant that `chrono` represents (in the year
/// 262142), into which the application converts instants, and far enough
/// below `i64::MAX` that adding a retry delay cannot overflow.
pub const MAX_CLOCK_MS: i64 = 8_300_000_000_000_000;

/// Reads the wall clock as the time elapsed since the Unix epoch
/// (`std::time::SystemTime::elapsed` on `UNIX_EPOCH`), in whole
/// milliseconds; `None` when the clock is set before the epoch (the call's
/// error). Which instant it is, nothing states.
#[verifier::external_body]
fn millis_since_epoch() -> (ms: Option<u128>) {
    match std::time::UNIX_EPOCH.elapsed() {
        Ok(d) => Some(d.as_millis()),
        Err(_) => None,
    }
}

/// The instant that a raw clock reading stands for: a clock set before the
/// epoch (`None`) reads as the epoch, and one past `MAX_CLOCK_MS` reads as
/// `MAX_CLOCK_MS`.
pub open spec fn instant_of(ms: Option<u128>) -> i64 {
    match ms {
        None => 0,
        Some(m) => if m > MAX_CLOCK_MS as u128 {
            MAX_CLOCK_MS
        } else {
            m as i64
        },
    }
}

/// The instant of a raw clock reading (see `instant_of`).
pub fn clock_instant(ms: Option<u128>) -> (t: i64)
    ensures
        t == instant_of(ms),
        0 <= t <= MAX_CLOCK_MS,
{
    match ms {
        None => 0,
        Some(m) => if m > MAX_CLOCK_MS as u128 {
            MAX_CLOCK_MS
        } else {
            m as i64
        },
    }
}

/// The current instant in milliseconds since the Unix epoch, read from the
/// wall clock (see `clock_instant`).
pub fn now_millis() -> (t: i64)
    ensures
        0 <= t <= MAX_CLOCK_MS,
{
    let ms = millis_since_epoch();
    clock_instant(ms)
}

} // verus!
