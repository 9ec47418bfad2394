use vstd::prelude::*;
use vstd::string::*;

use crate::error::{system_info_error, SporkError, SporkErrorKind};
use crate::stats::Platform;

verus! {

/// Relies on chrono's `From<SystemTime> for DateTime<Utc>` and `DateTime::timestamp_millis`:
/// the wall-clock time in milliseconds since the epoch. A clock set before the epoch gives a
/// negative value rather than a panic; chrono's range of about 262,000 years either side
/// covers every time an operating system clock can hold.
#[verifier::external_body]
pub fn now_ms() -> i64 {
    chrono::DateTime::<chrono::Utc>::from(std::time::SystemTime::now()).timestamp_millis()
}

/// Relies on `thread_id::get`: an identity of the calling thread that no other live thread
/// shares.
#[verifier::external_body]
pub fn get_thread_id() -> usize {
    thread_id::get()
}

/// Relies on `sys_info::os_type`: the name of the operating system.
#[verifier::external_body]
fn os_type() -> Result<String, sys_info::Error> {
    sys_info::os_type()
}

/// Relies on `sys_info::cpu_speed`: the CPU speed in MHz.
#[verifier::external_body]
fn cpu_speed() -> Result<u64, sys_info::Error> {
    sys_info::cpu_speed()
}

/// Relies on `sys_info::cpu_num`: the number of CPU cores.
#[verifier::external_body]
fn cpu_num() -> Result<u32, sys_info::Error> {
    sys_info::cpu_num()
}

/// Whether `e` is how a failed system-information query is reported: `Unimplemented` for an
/// unsupported system, `Unknown` otherwise.
pub open spec fn query_failure(e: SporkError) -> bool {
    e.spec_kind() == SporkErrorKind::Unimplemented || e.spec_kind() == SporkErrorKind::Unknown
}

/// The platform an operating-system name stands for.
pub open spec fn platform_named(name: Seq<char>) -> Platform {
    if name == "Linux"@ {
        Platform::Linux
    } else if name == "Windows"@ {
        Platform::Windows
    } else if name == "Darwin"@ {
        Platform::MacOS
    } else {
        Platform::Unknown
    }
}

/// The platform of an operating system named `name`, as the system reports it.
pub fn platform_from_os_type(name: &String) -> (r: Platform)
    ensures
        r == platform_named(name@),
{
    if *name == String::from_str("Linux") {
        Platform::Linux
    } else if *name == String::from_str("Windows") {
        Platform::Windows
    } else if *name == String::from_str("Darwin") {
        Platform::MacOS
    } else {
        Platform::Unknown
    }
}

/// The platform the process runs on.
pub fn get_platform() -> (r: Result<Platform, SporkError>)
    ensures
        r is Err ==> query_failure(r->Err_0),
{
    match os_type() {
        Ok(name) => Ok(platform_from_os_type(&name)),
        Err(e) => Err(SporkError::from_system_info(system_info_error(e))),
    }
}

/// Clock speed in Hz for a speed of `mhz` MHz, saturating at `u64::MAX`.
pub fn mhz_to_hz(mhz: u64) -> (r: u64)
    ensures
        r == if mhz * 1_000_000 <= u64::MAX {
            mhz * 1_000_000
        } else {
            u64::MAX as int
        },
{
    match mhz.checked_mul(1_000_000) {
        Some(hz) => hz,
        None => u64::MAX,
    }
}

/// The CPU clock speed, in Hz.
pub fn get_cpu_speed() -> (r: Result<u64, SporkError>)
    ensures
        r is Ok ==> r->Ok_0 == u64::MAX || r->Ok_0 % 1_000_000 == 0,
        r is Err ==> query_failure(r->Err_0),
{
    match cpu_speed() {
        Ok(s) => Ok(mhz_to_hz(s)),
        Err(e) => Err(SporkError::from_system_info(system_info_error(e))),
    }
}

/// The number of CPU cores.
pub fn get_num_cores() -> (r: Result<usize, SporkError>)
    ensures
        r is Err ==> query_failure(r->Err_0),
{
    match cpu_num() {
        Ok(n) => Ok(n as usize),
        Err(e) => Err(SporkError::from_system_info(system_info_error(e))),
    }
}

} // verus!
