use vstd::prelude::*;

use crate::error::{SporkError, SporkErrorKind};
use crate::stats::{CpuTime, StatType};

verus! {

/// Times of a Windows process or thread, each a count of 100-nanosecond intervals.
#[derive(Clone, Copy, Debug, PartialEq, Eq, Structural)]
pub struct WindowsCpuStats {
    pub creation: u64,
    pub exit: u64,
    pub kernel: u64,
    pub user: u64,
}

/// Intervals of 100 ns in one second.
pub const TICKS_PER_SECOND: u64 = 10_000_000;

/// The 64-bit value of a `FILETIME` given as its low and high 32-bit halves.
pub fn filetime_to_u64(low: u32, high: u32) -> (r: u64)
    ensures
        r == high * 0x1_0000_0000 + low,
{
    (high as u64) * 0x1_0000_0000 + (low as u64)
}

/// Total CPU time of a Windows record: kernel plus user time, seconds and microseconds
/// summed separately.
pub fn combine_cpu_times(val: &WindowsCpuStats) -> (r: CpuTime)
    ensures
        r.sec == val.kernel / 10_000_000 + val.user / 10_000_000,
        r.usec == val.kernel % 10_000_000 / 10 + val.user % 10_000_000 / 10,
{
    CpuTime {
        sec: val.kernel / TICKS_PER_SECOND + val.user / TICKS_PER_SECOND,
        usec: val.kernel % TICKS_PER_SECOND / 10 + val.user % TICKS_PER_SECOND / 10,
    }
}

/// Whether Windows can read the scope `kind`: the children scope is not implemented.
pub fn check_windows_scope(kind: StatType) -> (r: Result<(), SporkError>)
    ensures
        r is Err <==> kind == StatType::Children,
        r is Err ==> r->Err_0.spec_kind() == SporkErrorKind::Unimplemented,
{
    match kind {
        StatType::Children => Err(
            SporkError::new_borrowed(
                SporkErrorKind::Unimplemented,
                "Windows child thread memory stat not yet implemented!",
            ),
        ),
        _ => Ok(()),
    }
}

} // verus!
