use vstd::prelude::*;

verus! {

/// How to scope a CPU and memory reading.
#[derive(Clone, Copy, Debug, PartialEq, Eq, Structural)]
pub enum StatType {
    /// Usage across the entire process.
    Process,
    /// Usage of the calling thread.
    Thread,
    /// Usage of the children of the calling thread. What this covers depends on the
    /// platform; it is a best-effort scope.
    Children,
}

/// The current system's platform.
#[derive(Clone, Copy, Debug, PartialEq, Eq, Structural)]
pub enum Platform {
    Linux,
    MacOS,
    Windows,
    Unknown,
}

/// The accounting stream a sample belongs to: the whole process, or a thread-scoped kind
/// together with the identity of the observing thread.
#[derive(Clone, Copy, Debug, PartialEq, Eq, Structural)]
pub enum ScopeKey {
    Process,
    Thread(usize),
    Children(usize),
}

/// The key under which a poll of `kind` from thread `thread` is recorded.
pub open spec fn scope_key(kind: StatType, thread: usize) -> ScopeKey {
    match kind {
        StatType::Process => ScopeKey::Process,
        StatType::Thread => ScopeKey::Thread(thread),
        StatType::Children => ScopeKey::Children(thread),
    }
}

impl ScopeKey {
    /// Resolves the key for `kind` as seen from thread `thread`.
    pub fn resolve(kind: StatType, thread: usize) -> (r: ScopeKey)
        ensures
            r == scope_key(kind, thread),
    {
        match kind {
            StatType::Process => ScopeKey::Process,
            StatType::Thread => ScopeKey::Thread(thread),
            StatType::Children => ScopeKey::Children(thread),
        }
    }
}

/// Cumulative CPU time, as whole seconds plus microseconds. The microseconds may exceed
/// one second when two readings were summed without carrying.
#[derive(Clone, Copy, Debug, PartialEq, Eq, Structural)]
pub struct CpuTime {
    pub sec: u64,
    pub usec: u64,
}

impl CpuTime {
    /// The time in microseconds.
    pub open spec fn micros(self) -> int {
        self.sec * 1_000_000 + self.usec
    }

    /// The time in microseconds.
    pub fn as_micros(&self) -> (r: u128)
        ensures
            r == self.micros(),
    {
        self.sec as u128 * 1_000_000 + self.usec as u128
    }
}

/// A normalised platform reading: cumulative CPU time and a memory figure in bytes.
#[derive(Clone, Copy, Debug, PartialEq, Eq, Structural)]
pub struct Usage {
    pub cpu_time: CpuTime,
    pub memory: u64,
}

/// CPU and memory usage, as observed by one poll.
#[derive(Clone, Copy, Debug, PartialEq, Eq)]
pub struct Stats {
    /// Time at which the stats were polled, in milliseconds since the epoch.
    pub polled: i64,
    /// Duration over which CPU usage was calculated, in milliseconds.
    pub duration: u64,
    /// Total CPU time spent in the scope.
    pub cpu_time: CpuTime,
    /// Average CPU load since the last poll, in hundredths of a percent of the cores
    /// considered (`10000` is full load).
    pub cpu: u128,
    /// Memory in bytes. What it covers depends on the `StatType` and the platform.
    pub memory: u64,
    /// Time since the monitor was created, in milliseconds.
    pub uptime: u64,
    /// The scope of the reading.
    pub kind: StatType,
    /// The number of CPU cores considered when measuring the CPU usage.
    pub cores: usize,
}

impl Stats {
    /// A sample of `kind` with every measurement zero and one core considered.
    pub fn new_empty(kind: StatType) -> (r: Stats)
        ensures
            r == (Stats {
                kind,
                polled: 0,
                duration: 0,
                cpu_time: CpuTime { sec: 0, usec: 0 },
                cpu: 0,
                memory: 0,
                uptime: 0,
                cores: 1,
            }),
    {
        Stats {
            kind,
            polled: 0,
            duration: 0,
            cpu_time: CpuTime { sec: 0, usec: 0 },
            cpu: 0,
            memory: 0,
            uptime: 0,
            cores: 1,
        }
    }
}

} // verus!
