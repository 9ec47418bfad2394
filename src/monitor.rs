use vstd::prelude::*;

use crate::accounting::{
    abs_diff, calc_cpu_percent, calc_duration, load_hundredths, previous_micros, reference_time,
    safe_unsigned_sub,
};
use crate::error::{SporkError, SporkErrorKind};
use crate::history::{last_of, History};
use crate::system::{get_cpu_speed, get_num_cores, get_platform, now_ms, query_failure};
use crate::stats::{scope_key, Platform, ScopeKey, StatType, Stats, Usage};

verus! {

/// What a poll of `kind` at `now` reports, given the last sample of its scope, the start
/// of the monitor, the platform reading and the number of cores considered.
pub open spec fn poll_sample(
    last: Option<Stats>,
    started: i64,
    kind: StatType,
    now: i64,
    usage: Usage,
    cores: usize,
) -> Stats {
    let duration = abs_diff(reference_time(last, started) as int, now as int);
    Stats {
        polled: now,
        duration: duration as u64,
        cpu_time: usage.cpu_time,
        cpu: load_hundredths(
            usage.cpu_time.micros() - previous_micros(last),
            duration,
            cores as int,
        ) as u128,
        memory: usage.memory,
        uptime: abs_diff(now as int, started as int) as u64,
        kind,
        cores,
    }
}

/// The number of cores a poll considers: the count asked for, or every core.
pub open spec fn requested_cores(cores: Option<usize>, cpus: usize) -> usize {
    match cores {
        Some(c) => c,
        None => cpus,
    }
}

/// Whether a poll may consider `n` cores on a system with `cpus` of them.
pub open spec fn cores_valid(n: usize, cpus: usize) -> bool {
    1 <= n <= cpus
}

/// A poll taken after no further CPU work in its scope reports no load: when the CPU time
/// read is no more than the last sample's, the load is zero.
pub proof fn lemma_idle_poll_reports_no_load(
    last: Stats,
    started: i64,
    kind: StatType,
    now: i64,
    usage: Usage,
    cores: usize,
)
    requires
        usage.cpu_time.micros() <= last.cpu_time.micros(),
    ensures
        poll_sample(Some(last), started, kind, now, usage, cores).cpu == 0,
{
}

/// A scope kept busy for the whole interval reports full load: when the CPU time spent
/// since the last sample covers at least 95% of the interval, a poll over one core
/// reports at least 95%.
pub proof fn lemma_busy_poll_reports_saturation(
    last: Option<Stats>,
    started: i64,
    kind: StatType,
    now: i64,
    usage: Usage,
)
    requires
        abs_diff(reference_time(last, started) as int, now as int) > 0,
        (usage.cpu_time.micros() - previous_micros(last)) * 100 >= abs_diff(
            reference_time(last, started) as int,
            now as int,
        ) * 1000 * 95,
    ensures
        poll_sample(last, started, kind, now, usage, 1).cpu >= 9500,
{
    let d = usage.cpu_time.micros() - previous_micros(last);
    let dur = abs_diff(reference_time(last, started) as int, now as int);
    assert(d > 0) by (nonlinear_arith)
        requires
            d * 100 >= dur * 1000 * 95,
            dur > 0,
    ;
    assert(d * 10 >= 9500 * dur) by (nonlinear_arith)
        requires
            d * 100 >= dur * 1000 * 95,
    ;
    vstd::arithmetic::div_mod::lemma_div_is_ordered(9500 * dur, d * 10, dur * 1);
    vstd::arithmetic::div_mod::lemma_div_multiples_vanish(9500, dur);
    assert(poll_sample(last, started, kind, now, usage, 1).cpu == (d * 10 / (dur * 1)) as u128);
}

/// Threads polling thread-scoped kinds do not disturb each other: storing a sample for
/// thread `a` leaves what thread `b` sees, and so the interval of its next poll, as it
/// was.
pub proof fn lemma_thread_scope_isolation(
    history: Map<ScopeKey, Stats>,
    kind_a: StatType,
    a: usize,
    sample: Stats,
    kind_b: StatType,
    b: usize,
    started: i64,
    now: i64,
)
    requires
        kind_a != StatType::Process,
        kind_b != StatType::Process,
        a != b,
    ensures
        last_of(history.insert(scope_key(kind_a, a), sample), scope_key(kind_b, b)) == last_of(
            history,
            scope_key(kind_b, b),
        ),
        abs_diff(
            reference_time(
                last_of(history.insert(scope_key(kind_a, a), sample), scope_key(kind_b, b)),
                started,
            ) as int,
            now as int,
        ) == abs_diff(
            reference_time(last_of(history, scope_key(kind_b, b)), started) as int,
            now as int,
        ),
{
    assert(scope_key(kind_a, a) != scope_key(kind_b, b));
}

/// Two polls in the same millisecond are safe: a poll at the time it is measured from
/// covers a zero interval and reports no load.
pub proof fn lemma_zero_duration_poll(
    last: Option<Stats>,
    started: i64,
    kind: StatType,
    now: i64,
    usage: Usage,
    cores: usize,
)
    requires
        reference_time(last, started) == now,
    ensures
        poll_sample(last, started, kind, now, usage, cores).duration == 0,
        poll_sample(last, started, kind, now, usage, cores).cpu == 0,
{
}

/// Considering `n` cores divides the load of one core by `n`, for the same reading and
/// interval.
pub proof fn lemma_core_scaling(
    last: Option<Stats>,
    started: i64,
    kind: StatType,
    now: i64,
    usage: Usage,
    n: usize,
)
    requires
        n >= 1,
    ensures
        poll_sample(last, started, kind, now, usage, n).cpu == poll_sample(
            last,
            started,
            kind,
            now,
            usage,
            1,
        ).cpu / (n as u128),
{
    let d = usage.cpu_time.micros() - previous_micros(last);
    let dur = abs_diff(reference_time(last, started) as int, now as int);
    if dur > 0 && d > 0 {
        assert(d * 10 >= 0) by (nonlinear_arith)
            requires
                d > 0,
        ;
        vstd::arithmetic::div_mod::lemma_div_denominator(d * 10, dur, n as int);
        assert(dur * 1 == dur);
    }
}

/// Asking for one core more than the system has is always rejected.
pub proof fn lemma_too_many_cores_rejected(cpus: usize)
    requires
        cpus < usize::MAX,
    ensures
        !cores_valid(requested_cores(Some((cpus + 1) as usize), cpus), cpus),
{
}

/// The abstract state of a monitor.
pub struct SporkView {
    /// The last sample of each scope.
    pub history: Map<ScopeKey, Stats>,
    pub platform: Platform,
    /// CPU clock speed in Hz.
    pub clock: u64,
    /// Number of CPU cores.
    pub cpus: usize,
    /// Creation time, in milliseconds since the epoch.
    pub started: i64,
}

impl SporkView {
    /// Whether two states agree on everything but their history.
    pub open spec fn same_setup(self, other: SporkView) -> bool {
        &&& self.platform == other.platform
        &&& self.clock == other.clock
        &&& self.cpus == other.cpus
        &&& self.started == other.started
    }
}

/// A monitor of CPU and memory usage.
///
/// CPU usage is measured over the time between two polls of the same scope. Thread and
/// children scopes are kept per thread, so threads polling them do not disturb each
/// other; the process scope has one entry shared by every caller, so concurrent callers
/// polling it measure from whichever of them polled last.
#[derive(Clone, Debug)]
pub struct Spork {
    history: History,
    platform: Platform,
    clock: u64,
    cpus: usize,
    started: i64,
}

impl View for Spork {
    type V = SporkView;

    closed spec fn view(&self) -> SporkView {
        SporkView {
            history: self.history@,
            platform: self.platform,
            clock: self.clock,
            cpus: self.cpus,
            started: self.started,
        }
    }
}

impl Spork {
    /// A monitor with an empty history, for a system described by the arguments.
    pub fn from_parts(platform: Platform, clock: u64, cpus: usize, started: i64) -> (r: Spork)
        ensures
            r@.history == Map::<ScopeKey, Stats>::empty(),
            r@.platform == platform,
            r@.clock == clock,
            r@.cpus == cpus,
            r@.started == started,
    {
        Spork { history: History::default(), platform, clock, cpus, started }
    }

    /// A monitor of the running system, with an empty history. Fails when the platform,
    /// the clock speed or the number of cores cannot be read.
    pub fn new() -> (r: Result<Spork, SporkError>)
        ensures
            r is Ok ==> r->Ok_0@.history == Map::<ScopeKey, Stats>::empty(),
            r is Ok ==> r->Ok_0@.clock == u64::MAX || r->Ok_0@.clock % 1_000_000 == 0,
            r is Err ==> query_failure(r->Err_0),
    {
        let platform = match get_platform() {
            Ok(p) => p,
            Err(e) => return Err(e),
        };
        let clock = match get_cpu_speed() {
            Ok(c) => c,
            Err(e) => return Err(e),
        };
        let cpus = match get_num_cores() {
            Ok(n) => n,
            Err(e) => return Err(e),
        };
        Ok(Spork::from_parts(platform, clock, cpus, now_ms()))
    }

    /// Takes a reading into account: builds the sample and stores it as the last one of
    /// its scope.
    fn record(&mut self, kind: StatType, thread: usize, now: i64, usage: Usage, cores: usize) -> (r:
        Stats)
        ensures
            r == poll_sample(
                last_of(old(self)@.history, scope_key(kind, thread)),
                old(self)@.started,
                kind,
                now,
                usage,
                cores,
            ),
            final(self)@.history == old(self)@.history.insert(scope_key(kind, thread), r),
            final(self)@.same_setup(old(self)@),
    {
        let duration = calc_duration(&kind, &self.history, thread, self.started, now);
        let cpu = calc_cpu_percent(&self.history, &kind, thread, &usage.cpu_time, duration, cores);
        let stats = Stats {
            kind,
            polled: now,
            duration,
            cpu_time: usage.cpu_time,
            cpu,
            memory: usage.memory,
            uptime: safe_unsigned_sub(now, self.started),
            cores,
        };
        self.history.set_last(&kind, thread, stats);
        stats
    }

    /// The number of cores a poll asking for `cores` considers: `cores`, or every core
    /// for `None`. Zero cores, or more than the system has, is an `InvalidArgument`
    /// error.
    pub fn resolve_cores(&self, cores: Option<usize>) -> (r: Result<usize, SporkError>)
        ensures
            match r {
                Ok(n) => n == requested_cores(cores, self@.cpus) && cores_valid(n, self@.cpus),
                Err(e) => !cores_valid(requested_cores(cores, self@.cpus), self@.cpus)
                    && e.spec_kind() == SporkErrorKind::InvalidArgument,
            },
    {
        let n = match cores {
            Some(c) => c,
            None => self.cpus,
        };
        if n == 0 || n > self.cpus {
            return Err(SporkError::new_borrowed(SporkErrorKind::InvalidArgument, "Invalid CPU count."));
        }
        Ok(n)
    }

    /// Polls `kind` from thread `thread` at time `now` (milliseconds since the epoch),
    /// with the platform's reading `usage`, assuming usage across one core.
    ///
    /// A failed reading is returned as it is and leaves the history unchanged.
    pub fn stats(
        &mut self,
        kind: StatType,
        thread: usize,
        now: i64,
        usage: Result<Usage, SporkError>,
    ) -> (r: Result<Stats, SporkError>)
        ensures
            match usage {
                Ok(u) => {
                    &&& r == Ok::<Stats, SporkError>(
                        poll_sample(
                            last_of(old(self)@.history, scope_key(kind, thread)),
                            old(self)@.started,
                            kind,
                            now,
                            u,
                            1,
                        ),
                    )
                    &&& final(self)@.history == old(self)@.history.insert(
                        scope_key(kind, thread),
                        r->Ok_0,
                    )
                },
                Err(e) => r == Err::<Stats, SporkError>(e) && final(self)@.history == old(
                    self,
                )@.history,
            },
            final(self)@.same_setup(old(self)@),
    {
        match usage {
            Ok(u) => Ok(self.record(kind, thread, now, u, 1)),
            Err(e) => Err(e),
        }
    }

    /// Polls `kind` as `stats` does, assuming usage across `cores` cores, or every core
    /// for `None`.
    ///
    /// An invalid core count (see `resolve_cores`) is an `InvalidArgument` error, and a
    /// failed reading is returned as it is; either leaves the history unchanged.
    pub fn stats_with_cpus(
        &mut self,
        kind: StatType,
        cores: Option<usize>,
        thread: usize,
        now: i64,
        usage: Result<Usage, SporkError>,
    ) -> (r: Result<Stats, SporkError>)
        ensures
            ({
                let n = requested_cores(cores, old(self)@.cpus);
                if !cores_valid(n, old(self)@.cpus) {
                    &&& r is Err
                    &&& r->Err_0.spec_kind() == SporkErrorKind::InvalidArgument
                    &&& final(self)@.history == old(self)@.history
                } else {
                    match usage {
                        Ok(u) => {
                            &&& r == Ok::<Stats, SporkError>(
                                poll_sample(
                                    last_of(old(self)@.history, scope_key(kind, thread)),
                                    old(self)@.started,
                                    kind,
                                    now,
                                    u,
                                    n,
                                ),
                            )
                            &&& final(self)@.history == old(self)@.history.insert(
                                scope_key(kind, thread),
                                r->Ok_0,
                            )
                        },
                        Err(e) => r == Err::<Stats, SporkError>(e) && final(self)@.history == old(
                            self,
                        )@.history,
                    }
                }
            }),
            final(self)@.same_setup(old(self)@),
    {
        let n = match self.resolve_cores(cores) {
            Ok(n) => n,
            Err(e) => return Err(e),
        };
        match usage {
            Ok(u) => Ok(self.record(kind, thread, now, u, n)),
            Err(e) => Err(e),
        }
    }

    /// The system's platform.
    pub fn platform(&self) -> (r: Platform)
        ensures
            r == self@.platform,
    {
        self.platform
    }

    /// The CPU clock speed, in Hz.
    pub fn clock_speed(&self) -> (r: u64)
        ensures
            r == self@.clock,
    {
        self.clock
    }

    /// The number of CPU cores of the system.
    pub fn num_cores(&self) -> (r: usize)
        ensures
            r == self@.cpus,
    {
        self.cpus
    }

    /// Clears the last sample of `kind` for thread `thread` and returns it. The next poll
    /// of that scope is then measured from the creation of the monitor. Worth calling
    /// when a short-lived thread exits, since its identity may be reused.
    pub fn drop_history(&mut self, kind: StatType, thread: usize) -> (r: Option<Stats>)
        ensures
            r == last_of(old(self)@.history, scope_key(kind, thread)),
            final(self)@.history == old(self)@.history.remove(scope_key(kind, thread)),
            final(self)@.same_setup(old(self)@),
    {
        self.history.clear_last(&kind, thread)
    }

    /// A copy of the last sample of `kind` for thread `thread`, if any.
    pub fn read_history(&self, kind: StatType, thread: usize) -> (r: Option<Stats>)
        ensures
            r == last_of(self@.history, scope_key(kind, thread)),
    {
        self.history.get_last(&kind, thread)
    }
}

} // verus!
