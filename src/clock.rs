use vstd::prelude::*;

verus! {

/// Nanoseconds in one second.
pub const NANOS_PER_SEC: i32 = 1_000_000_000;

/// Nanoseconds in one millisecond.
pub const NANOS_PER_MILLI: i32 = 1_000_000;

/// Milliseconds in one second.
pub const MILLIS_PER_SEC: i64 = 1000;

/// `x` held to the range of `i64`.
pub open spec fn clamp_i64(x: int) -> i64 {
    if x < i64::MIN {
        i64::MIN
    } else if x > i64::MAX {
        i64::MAX
    } else {
        x as i64
    }
}

/// The instant `sec` seconds and `nsec` nanoseconds after the epoch, in whole
/// milliseconds (rounded down).
pub open spec fn millis_spec(sec: int, nsec: int) -> int {
    sec * 1000 + nsec / 1_000_000
}

/// Relies on time::get_time: the current wall-clock time as seconds and
/// nanoseconds, built by Timespec::new, which asserts that the nanoseconds lie
/// in `0..1_000_000_000`.
#[verifier::external_body]
fn wall_clock() -> (r: (i64, i32))
    ensures
        0 <= r.1 < NANOS_PER_SEC,
{
    let t = time::get_time();
    (t.sec, t.nsec)
}

/// A time given as seconds and nanoseconds, in milliseconds, held to the
/// range of `i64`.
pub fn millis_of(sec: i64, nsec: i32) -> (r: i64)
    requires
        0 <= nsec < NANOS_PER_SEC,
    ensures
        r == clamp_i64(millis_spec(sec as int, nsec as int)),
{
    let ms: i128 = (sec as i128) * (MILLIS_PER_SEC as i128) + (nsec / NANOS_PER_MILLI) as i128;
    if ms < i64::MIN as i128 {
        i64::MIN
    } else if ms > i64::MAX as i128 {
        i64::MAX
    } else {
        ms as i64
    }
}

/// The current wall-clock time in milliseconds since the epoch.
pub fn now_millis() -> (r: i64)
    ensures
        exists|sec: i64, nsec: i32|
            0 <= nsec < NANOS_PER_SEC && r == clamp_i64(millis_spec(sec as int, nsec as int)),
{
    let (sec, nsec) = wall_clock();
    millis_of(sec, nsec)
}

} // verus!
