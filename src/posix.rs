use vstd::prelude::*;

use crate::error::{SporkError, SporkErrorKind};
use crate::stats::{CpuTime, Usage};

verus! {

/// A POSIX `timespec`: seconds and nanoseconds.
#[derive(Clone, Copy, Debug, PartialEq, Eq, Structural)]
pub struct TimeSpec {
    pub tv_sec: i64,
    pub tv_nsec: i64,
}

/// A POSIX `timeval`: seconds and microseconds.
#[derive(Clone, Copy, Debug, PartialEq, Eq, Structural)]
pub struct TimeVal {
    pub tv_sec: i64,
    pub tv_usec: i64,
}

/// The fields of a POSIX `rusage` record that Spork reads: user and system CPU time, and
/// the maximum resident set size, which Linux gives in kilobytes and macOS in bytes.
#[derive(Clone, Copy, Debug, PartialEq, Eq, Structural)]
pub struct ResourceUsage {
    pub ru_utime: TimeVal,
    pub ru_stime: TimeVal,
    pub ru_maxrss: i64,
}

/// A `timespec` of zero.
pub fn empty_timespec() -> (r: TimeSpec)
    ensures
        r == (TimeSpec { tv_sec: 0, tv_nsec: 0 }),
{
    TimeSpec { tv_sec: 0, tv_nsec: 0 }
}

/// Operation not permitted.
pub const EPERM: i32 = 1;

/// Bad address.
pub const EFAULT: i32 = 14;

/// Invalid argument.
pub const EINVAL: i32 = 22;

/// The absolute value of an integer.
pub open spec fn abs(x: int) -> int {
    if x >= 0 {
        x
    } else {
        -x
    }
}

/// `x` clamped to the range of `u64`.
pub open spec fn clamp_u64(x: int) -> int {
    if x <= u64::MAX {
        x
    } else {
        u64::MAX as int
    }
}

/// `a / b` rounded toward zero, as Rust's integer division does.
pub open spec fn div_toward_zero(a: int, b: int) -> int {
    if a >= 0 {
        a / b
    } else {
        -((-a) / b)
    }
}

/// The absolute value of `x`, which always fits in a `u64`.
pub fn magnitude(x: i64) -> (r: u64)
    ensures
        r == abs(x as int),
{
    if x >= 0 {
        x as u64
    } else {
        (-(x as i128)) as u64
    }
}

/// The absolute value of `a + b`, saturating at `u64::MAX`.
fn magnitude_of_sum(a: i64, b: i64) -> (r: u64)
    ensures
        r == clamp_u64(abs(a + b)),
{
    let s: i128 = a as i128 + b as i128;
    let m: i128 = if s >= 0 {
        s
    } else {
        -s
    };
    if m > u64::MAX as i128 {
        u64::MAX
    } else {
        m as u64
    }
}

/// The result of a POSIX call: the codes for a bad address, an invalid clock and a missing
/// permission are errors, any other code is passed on.
pub fn map_posix_resp(code: i32) -> (r: Result<i32, SporkError>)
    ensures
        code == EFAULT ==> r is Err && r->Err_0.spec_kind() == SporkErrorKind::Unknown
            && r->Err_0.spec_details() == "Invalid timespec address space."@,
        code == EINVAL ==> r is Err && r->Err_0.spec_kind() == SporkErrorKind::Unknown
            && r->Err_0.spec_details() == "Invalid clock ID."@,
        code == EPERM ==> r is Err && r->Err_0.spec_kind() == SporkErrorKind::Unknown
            && r->Err_0.spec_details() == "Invalid clock permissions."@,
        code != EFAULT && code != EINVAL && code != EPERM ==> r == Ok::<i32, SporkError>(code),
{
    if code == EFAULT {
        Err(SporkError::new_borrowed(SporkErrorKind::Unknown, "Invalid timespec address space."))
    } else if code == EINVAL {
        Err(SporkError::new_borrowed(SporkErrorKind::Unknown, "Invalid clock ID."))
    } else if code == EPERM {
        Err(SporkError::new_borrowed(SporkErrorKind::Unknown, "Invalid clock permissions."))
    } else {
        Ok(code)
    }
}

/// The CPU time a `timespec` holds, taking the absolute value of each field.
pub fn timespec_to_cpu_time(times: &TimeSpec) -> (r: CpuTime)
    ensures
        r.sec == abs(times.tv_sec as int),
        r.usec == abs(times.tv_nsec as int) / 1000,
{
    CpuTime { sec: magnitude(times.tv_sec), usec: magnitude(times.tv_nsec) / 1000 }
}

/// A `timespec` as a `timeval`: the nanoseconds become microseconds, rounded toward zero.
pub fn timespec_to_timeval(times: &TimeSpec) -> (r: TimeVal)
    ensures
        r.tv_sec == times.tv_sec,
        r.tv_usec == div_toward_zero(times.tv_nsec as int, 1000),
{
    let n: i128 = times.tv_nsec as i128;
    let usec: i128 = if n >= 0 {
        n / 1000
    } else {
        -((-n) / 1000)
    };
    TimeVal { tv_sec: times.tv_sec, tv_usec: usec as i64 }
}

/// Total CPU time of a usage record: user plus system time, seconds and microseconds
/// summed separately. A negative sum, which only counter wraparound or an operating
/// system fault produces, is taken by its absolute value; a sum beyond `u64` saturates.
pub fn get_cpu_time(val: &ResourceUsage) -> (r: CpuTime)
    ensures
        r.sec == clamp_u64(abs(val.ru_stime.tv_sec + val.ru_utime.tv_sec)),
        r.usec == clamp_u64(abs(val.ru_stime.tv_usec + val.ru_utime.tv_usec)),
{
    CpuTime {
        sec: magnitude_of_sum(val.ru_stime.tv_sec, val.ru_utime.tv_sec),
        usec: magnitude_of_sum(val.ru_stime.tv_usec, val.ru_utime.tv_usec),
    }
}

/// Whether a usage record sums to a negative time, which only counter wraparound or an
/// operating system fault produces. `get_cpu_time` still gives a usable value for it.
pub fn has_negative_cpu_time(val: &ResourceUsage) -> (r: bool)
    ensures
        r == (val.ru_stime.tv_sec + val.ru_utime.tv_sec < 0 || val.ru_stime.tv_usec
            + val.ru_utime.tv_usec < 0),
{
    (val.ru_stime.tv_sec as i128 + val.ru_utime.tv_sec as i128) < 0
        || (val.ru_stime.tv_usec as i128 + val.ru_utime.tv_usec as i128) < 0
}

/// Memory in bytes for a maximum resident set size of `max_rss` kilobytes, saturating at
/// `u64::MAX`.
pub fn max_rss_to_bytes(max_rss: i64) -> (r: u64)
    ensures
        r == clamp_u64(abs(max_rss as int) * 1024),
{
    match magnitude(max_rss).checked_mul(1024) {
        Some(b) => b,
        None => u64::MAX,
    }
}

/// The reading a usage record gives: its total CPU time and its memory in bytes.
pub fn usage_from_rusage(val: &ResourceUsage) -> (r: Usage)
    ensures
        r.cpu_time == get_cpu_time_spec(*val),
        r.memory == clamp_u64(abs(val.ru_maxrss as int) * 1024),
{
    Usage { cpu_time: get_cpu_time(val), memory: max_rss_to_bytes(val.ru_maxrss) }
}

/// The reading a usage record from macOS gives: its total CPU time, and its maximum
/// resident set size, already in bytes, saturating at `u64::MAX`.
pub fn usage_from_darwin_rusage(val: &ResourceUsage) -> (r: Usage)
    ensures
        r.cpu_time == get_cpu_time_spec(*val),
        r.memory == abs(val.ru_maxrss as int),
{
    Usage { cpu_time: get_cpu_time(val), memory: magnitude(val.ru_maxrss) }
}

/// The total CPU time of a usage record, as `get_cpu_time` computes it.
pub open spec fn get_cpu_time_spec(val: ResourceUsage) -> CpuTime {
    CpuTime {
        sec: clamp_u64(abs(val.ru_stime.tv_sec + val.ru_utime.tv_sec)) as u64,
        usec: clamp_u64(abs(val.ru_stime.tv_usec + val.ru_utime.tv_usec)) as u64,
    }
}

/// A usage record for the calling thread: the user time is replaced by the thread's
/// CPU clock, which counts the thread alone.
pub fn with_thread_clock(usage: ResourceUsage, clock: &TimeSpec) -> (r: ResourceUsage)
    ensures
        r == (ResourceUsage { ru_utime: TimeVal { tv_sec: clock.tv_sec, tv_usec: div_toward_zero(clock.tv_nsec as int, 1000) as i64 }, ..usage }),
{
    ResourceUsage { ru_utime: timespec_to_timeval(clock), ..usage }
}

} // verus!
