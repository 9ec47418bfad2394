use vstd::prelude::*;

use crate::history::{last_of, History};
use crate::stats::{scope_key, CpuTime, StatType, Stats};

verus! {

/// The absolute difference of two integers.
pub open spec fn abs_diff(a: int, b: int) -> int {
    if a >= b {
        a - b
    } else {
        b - a
    }
}

/// The distance between `lhs` and `rhs`, which always fits in a `u64`.
pub fn safe_unsigned_sub(lhs: i64, rhs: i64) -> (r: u64)
    ensures
        r == abs_diff(lhs as int, rhs as int),
{
    let d: i128 = lhs as i128 - rhs as i128;
    if d >= 0 {
        d as u64
    } else {
        (-d) as u64
    }
}

} // verus!

verus! {

/// Average load, in hundredths of a percent of `cores` cores, of `delta` microseconds of
/// CPU time spread over `duration` milliseconds. A zero interval, no core, or a CPU time
/// that went backwards gives zero.
pub open spec fn load_hundredths(delta: int, duration: int, cores: int) -> int {
    if duration <= 0 || cores <= 0 || delta <= 0 {
        0
    } else {
        delta * 10 / (duration * cores)
    }
}

/// The time a new poll is measured from: the previous sample's poll time, or the start
/// of the monitor when there is none.
pub open spec fn reference_time(last: Option<Stats>, started: i64) -> i64 {
    match last {
        Some(s) => s.polled,
        None => started,
    }
}

/// The cumulative CPU time of the previous sample in microseconds, or zero when there is
/// none.
pub open spec fn previous_micros(last: Option<Stats>) -> int {
    match last {
        Some(s) => s.cpu_time.micros(),
        None => 0,
    }
}

/// Milliseconds between `polled` and the last poll of `kind` by `thread` (or `started`,
/// when there is none).
pub fn calc_duration(
    kind: &StatType,
    history: &History,
    thread: usize,
    started: i64,
    polled: i64,
) -> (r: u64)
    ensures
        r == abs_diff(
            reference_time(last_of(history@, scope_key(*kind, thread)), started) as int,
            polled as int,
        ),
{
    let last = match history.get_last(kind, thread) {
        Some(stats) => stats.polled,
        None => started,
    };
    safe_unsigned_sub(last, polled)
}

/// The load of `cores` cores, in hundredths of a percent, between the last poll of
/// `kind` by `thread` and a new reading `curr` taken `duration` milliseconds later.
pub fn calc_cpu_percent(
    history: &History,
    kind: &StatType,
    thread: usize,
    curr: &CpuTime,
    duration: u64,
    cores: usize,
) -> (r: u128)
    ensures
        r == load_hundredths(
            curr.micros() - previous_micros(last_of(history@, scope_key(*kind, thread))),
            duration as int,
            cores as int,
        ),
{
    let prev: u128 = match history.get_last(kind, thread) {
        Some(stats) => stats.cpu_time.as_micros(),
        None => 0,
    };
    let now = curr.as_micros();
    if duration == 0 || cores == 0 || now <= prev {
        return 0;
    }
    let delta: u128 = now - prev;
    assert(delta * 10 <= u128::MAX) by (nonlinear_arith)
        requires
            delta <= curr.micros(),
            curr.micros() == curr.sec * 1_000_000 + curr.usec,
            curr.sec <= u64::MAX,
            curr.usec <= u64::MAX,
    ;
    let per_core = delta * 10 / (duration as u128);
    proof {
        vstd::arithmetic::div_mod::lemma_div_denominator(
            delta * 10,
            duration as int,
            cores as int,
        );
    }
    per_core / (cores as u128)
}

} // verus!
