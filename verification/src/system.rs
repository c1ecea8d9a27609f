use vstd::prelude::*;
use vstd::string::*;

use crate::error::{AppError, AppResult};

verus! {

/// Relies on sysinfo::System::host_name: the hostname is read from the
/// machine, so nothing is promised of the answer.
pub assume_specification[ sysinfo::System::host_name ]() -> Option<String>;

/// Relies on sysinfo::System::cpu_arch: the CPU architecture is read from
/// the machine, so nothing is promised of the answer.
pub assume_specification[ sysinfo::System::cpu_arch ]() -> Option<String>;

/// Relies on sysinfo::System::boot_time: the boot time in seconds since
/// the epoch is read from the machine, so nothing is promised of it.
pub assume_specification[ sysinfo::System::boot_time ]() -> u64;

/// Relies on sysinfo::System::uptime: the uptime in seconds is read from
/// the machine, so nothing is promised of it.
pub assume_specification[ sysinfo::System::uptime ]() -> u64;

/// Relies on sysinfo::System::long_os_version: the OS description is read
/// from the machine, so nothing is promised of the answer.
pub assume_specification[ sysinfo::System::long_os_version ]() -> Option<String>;

/// Relies on sysinfo::System::kernel_version: the kernel version is read
/// from the machine, so nothing is promised of the answer.
pub assume_specification[ sysinfo::System::kernel_version ]() -> Option<String>;

/// Relies on sysinfo::IS_SUPPORTED_SYSTEM: whether the metrics
/// collaborator supports this platform; machine-dependent, so nothing is
/// promised of the answer.
#[verifier::external_body]
fn platform_is_supported() -> bool {
    sysinfo::IS_SUPPORTED_SYSTEM
}

/// The text shown in place of a host fact the machine would not give.
pub open spec fn spec_or_unknown(s: Option<String>) -> Seq<char> {
    match s {
        Some(v) => v@,
        None => "unkonw"@,
    }
}

/// The given host fact, or the placeholder text where there was none.
fn or_unknown(s: Option<String>) -> (r: String)
    ensures
        r@ == spec_or_unknown(s),
{
    match s {
        Some(v) => v,
        None => String::from_str("unkonw"),
    }
}

/// Host facts gathered once at construction: hostname, CPU architecture,
/// boot time and uptime in whole hours, and the OS and kernel version
/// strings.
#[derive(Debug)]
pub struct SysData {
    pub host: String,
    pub cpu_arch: String,
    pub boot_time: u64,
    pub uptime: u64,
    pub long_os_ver: String,
    pub kernel_ver: String,
}

impl SysData {
    /// Builds the record from the collaborators' raw answers: a missing
    /// string falls back to the placeholder, and the times are converted
    /// from seconds to whole hours.
    pub fn from_parts(
        host: Option<String>,
        cpu_arch: Option<String>,
        boot_time_secs: u64,
        uptime_secs: u64,
        long_os_ver: Option<String>,
        kernel_ver: Option<String>,
    ) -> (r: SysData)
        ensures
            r.host@ == spec_or_unknown(host),
            r.cpu_arch@ == spec_or_unknown(cpu_arch),
            r.boot_time == boot_time_secs / 3600,
            r.uptime == uptime_secs / 3600,
            r.long_os_ver@ == spec_or_unknown(long_os_ver),
            r.kernel_ver@ == spec_or_unknown(kernel_ver),
    {
        SysData {
            host: or_unknown(host),
            cpu_arch: or_unknown(cpu_arch),
            boot_time: boot_time_secs / 3600,
            uptime: uptime_secs / 3600,
            long_os_ver: or_unknown(long_os_ver),
            kernel_ver: or_unknown(kernel_ver),
        }
    }

    /// Gathers the host facts from the machine. The answers depend on the
    /// machine alone; `from_parts` carries the exact construction
    /// contract.
    pub fn new() -> SysData {
        SysData::from_parts(
            sysinfo::System::host_name(),
            sysinfo::System::cpu_arch(),
            sysinfo::System::boot_time(),
            sysinfo::System::uptime(),
            sysinfo::System::long_os_version(),
            sysinfo::System::kernel_version(),
        )
    }

    /// The hostname, or the placeholder.
    pub fn get_host(&self) -> (r: &str)
        ensures
            r@ == self.host@,
    {
        self.host.as_str()
    }

    /// The CPU architecture, or the placeholder.
    pub fn get_cpu_arch(&self) -> (r: &str)
        ensures
            r@ == self.cpu_arch@,
    {
        self.cpu_arch.as_str()
    }

    /// The boot time, in whole hours since the epoch.
    pub fn get_boot_time(&self) -> (r: u64)
        ensures
            r == self.boot_time,
    {
        self.boot_time
    }

    /// The uptime, in whole hours.
    pub fn get_uptime(&self) -> (r: u64)
        ensures
            r == self.uptime,
    {
        self.uptime
    }

    /// The long OS description, or the placeholder.
    pub fn get_os_long_ver(&self) -> (r: &str)
        ensures
            r@ == self.long_os_ver@,
    {
        self.long_os_ver.as_str()
    }

    /// The kernel version, or the placeholder.
    pub fn get_kernel_ver(&self) -> (r: &str)
        ensures
            r@ == self.kernel_ver@,
    {
        self.kernel_ver.as_str()
    }
}

impl Default for SysData {
    fn default() -> SysData {
        SysData::new()
    }
}

/// Maps the platform probe's answer to the startup decision: the probe is
/// honoured exactly, `Ok` if and only if the platform is supported.
pub fn supported_from(flag: bool) -> (r: AppResult<()>)
    ensures
        flag ==> r == Ok::<(), AppError>(()),
        !flag ==> r == Err::<(), AppError>(AppError::NoSupported),
{
    if flag {
        Ok(())
    } else {
        Err(AppError::NoSupported)
    }
}

/// Whether the metrics collaborator can run on this host: `Ok`, or
/// `NoSupported` and nothing else, as the platform probe answers.
pub fn supported() -> (r: AppResult<()>)
    ensures
        r == Ok::<(), AppError>(()) || r == Err::<(), AppError>(AppError::NoSupported),
{
    supported_from(platform_is_supported())
}

} // verus!
