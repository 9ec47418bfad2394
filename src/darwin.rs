use vstd::prelude::*;

use crate::error::{SporkError, SporkErrorKind};
use crate::posix::{abs, ResourceUsage, TimeSpec, TimeVal};

verus! {

/// A Mach `time_value_t`: seconds and microseconds.
#[derive(Clone, Copy, Debug, PartialEq, Eq, Structural)]
pub struct TimeValue {
    pub seconds: i32,
    pub microseconds: i32,
}

/// The Mach call succeeded.
pub const KERN_SUCCESS: i32 = 0;

/// The target is not a task or thread, or the flavor is not recognised.
pub const KERN_INVALID_ARGUMENT: i32 = 4;

/// The reply array is larger than the buffer given for it.
pub const MIG_ARRAY_TOO_LARGE: i32 = -307;

/// The microseconds a Mach time value stands for.
pub open spec fn time_value_micros(t: TimeValue) -> int {
    t.seconds * 1_000_000 + t.microseconds
}

/// The result of a Mach call: success passes the code on, anything else is an error.
pub fn map_mach_resp(code: i32) -> (r: Result<i32, SporkError>)
    ensures
        code == KERN_SUCCESS <==> r is Ok,
        r is Ok ==> r->Ok_0 == code,
        r is Err ==> r->Err_0.spec_kind() == SporkErrorKind::Unknown,
        code == KERN_INVALID_ARGUMENT ==> r is Err && r->Err_0.spec_details()
            == "Target task is not a thread or flavor not recognized"@,
        code == MIG_ARRAY_TOO_LARGE ==> r is Err && r->Err_0.spec_details()
            == "Target array too small"@,
        code != KERN_SUCCESS && code != KERN_INVALID_ARGUMENT && code != MIG_ARRAY_TOO_LARGE
            ==> r is Err && r->Err_0.spec_details() == "Unknown error had occured"@,
{
    if code == KERN_SUCCESS {
        Ok(code)
    } else if code == KERN_INVALID_ARGUMENT {
        Err(
            SporkError::new_borrowed(
                SporkErrorKind::Unknown,
                "Target task is not a thread or flavor not recognized",
            ),
        )
    } else if code == MIG_ARRAY_TOO_LARGE {
        Err(SporkError::new_borrowed(SporkErrorKind::Unknown, "Target array too small"))
    } else {
        Err(SporkError::new_borrowed(SporkErrorKind::Unknown, "Unknown error had occured"))
    }
}

/// A Mach time value as a `timespec`.
pub fn time_value_t_to_timespec(times: TimeValue) -> (r: TimeSpec)
    ensures
        r.tv_sec == times.seconds,
        r.tv_nsec == times.microseconds * 1000,
{
    TimeSpec { tv_sec: times.seconds as i64, tv_nsec: times.microseconds as i64 * 1000 }
}

/// A Mach time value as a `timeval`.
pub fn time_value_t_to_timeval(times: TimeValue) -> (r: TimeVal)
    ensures
        r.tv_sec == times.seconds,
        r.tv_usec == times.microseconds,
{
    TimeVal { tv_sec: times.seconds as i64, tv_usec: times.microseconds as i64 }
}

/// The user and system times of a task's threads merged into one `timespec`, normalised
/// so that the nanoseconds stay under one second. Each time counts by its absolute value.
pub fn merge_thread_times_to_timespec(user_time: TimeValue, system_time: TimeValue) -> (r:
    TimeSpec)
    ensures
        ({
            let total = abs(time_value_micros(user_time)) + abs(time_value_micros(system_time));
            &&& r.tv_sec == total / 1_000_000
            &&& r.tv_nsec == (total % 1_000_000) * 1000
        }),
{
    let user: i64 = user_time.seconds as i64 * 1_000_000 + user_time.microseconds as i64;
    let system: i64 = system_time.seconds as i64 * 1_000_000 + system_time.microseconds as i64;
    let user_abs: i64 = if user >= 0 {
        user
    } else {
        -user
    };
    let system_abs: i64 = if system >= 0 {
        system
    } else {
        -system
    };
    let total: i64 = user_abs + system_abs;
    TimeSpec { tv_sec: total / 1_000_000, tv_nsec: (total % 1_000_000) * 1000 }
}

/// The usage record of a task from its basic information: the resident size, in bytes,
/// becomes the maximum resident set size (saturating at `i64::MAX`), and the system time
/// is taken as it is. The user time is left zero.
pub fn rusage_from_task_info(resident_size: u64, system_time: TimeValue) -> (r: ResourceUsage)
    ensures
        r.ru_maxrss == if resident_size <= i64::MAX {
            resident_size as int
        } else {
            i64::MAX as int
        },
        r.ru_stime == time_value_t_to_timeval_spec(system_time),
        r.ru_utime == (TimeVal { tv_sec: 0, tv_usec: 0 }),
{
    let rss: i64 = if resident_size <= i64::MAX as u64 {
        resident_size as i64
    } else {
        i64::MAX
    };
    ResourceUsage {
        ru_utime: TimeVal { tv_sec: 0, tv_usec: 0 },
        ru_stime: time_value_t_to_timeval(system_time),
        ru_maxrss: rss,
    }
}

/// A Mach time value as a `timeval`, as `time_value_t_to_timeval` computes it.
pub open spec fn time_value_t_to_timeval_spec(times: TimeValue) -> TimeVal {
    TimeVal { tv_sec: times.seconds as i64, tv_usec: times.microseconds as i64 }
}

} // verus!
