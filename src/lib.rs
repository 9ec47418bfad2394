//! Spork: CPU and memory usage sampling for a process, the calling thread, or its
//! children.
//!
//! The library turns cumulative CPU-time counters into utilisation percentages by
//! differential sampling: each poll is compared against the last sample stored for the
//! same scope, and the new sample replaces it. Percentages are reported in hundredths of
//! a percent, so that `10000` means one core kept fully busy over the interval.
//!
//! Reading the counters themselves is left to the caller: the polling functions take the
//! thread identity, the wall-clock time and the platform reading as arguments.

pub mod accounting;
pub mod darwin;
pub mod error;
pub mod history;
pub mod monitor;
pub mod posix;
pub mod stats;
pub mod system;
pub mod windows;

pub use accounting::{calc_cpu_percent, calc_duration, safe_unsigned_sub};
pub use history::History;
pub use monitor::{Spork, SporkView};
pub use error::{SporkError, SporkErrorKind, SystemInfoError};
pub use stats::{CpuTime, Platform, ScopeKey, StatType, Stats, Usage};
pub use system::{
    get_cpu_speed, get_num_cores, get_platform, get_thread_id, mhz_to_hz, now_ms,
    platform_from_os_type,
};
pub use posix::{
    empty_timespec, get_cpu_time, has_negative_cpu_time, magnitude, map_posix_resp, max_rss_to_bytes, timespec_to_cpu_time,
    timespec_to_timeval, usage_from_darwin_rusage, usage_from_rusage, with_thread_clock, ResourceUsage, TimeSpec, TimeVal,
    EFAULT, EINVAL, EPERM,
};
pub use darwin::{
    map_mach_resp, merge_thread_times_to_timespec, rusage_from_task_info,
    time_value_t_to_timespec, time_value_t_to_timeval, TimeValue, KERN_INVALID_ARGUMENT,
    KERN_SUCCESS, MIG_ARRAY_TOO_LARGE,
};
pub use windows::{
    check_windows_scope, combine_cpu_times, filetime_to_u64, WindowsCpuStats, TICKS_PER_SECOND,
};
