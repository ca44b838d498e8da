//! The hardware summary: what the operating system reports, read through
//! sysinfo into a plain snapshot, then shaped into a `HardwareInfo`.
use vstd::prelude::*;

verus! {

#[verifier::external_type_specification]
#[verifier::external_body]
pub struct ExSystem(sysinfo::System);

/// Relies on sysinfo::System::new_all: a system handle with every kind of
/// information loaded.
pub assume_specification[ sysinfo::System::new_all ]() -> sysinfo::System;

/// Relies on sysinfo::System::refresh_all: reloads every kind of information.
pub assume_specification[ sysinfo::System::refresh_all ](sys: &mut sysinfo::System);

/// Relies on sysinfo::System::total_memory: the RAM size in bytes.
pub assume_specification[ sysinfo::System::total_memory ](sys: &sysinfo::System) -> u64;

/// Relies on sysinfo::System::free_memory: the unallocated RAM in bytes.
pub assume_specification[ sysinfo::System::free_memory ](sys: &sysinfo::System) -> u64;

/// Relies on sysinfo::System::name: the operating system's name, if known.
pub assume_specification[ sysinfo::System::name ]() -> Option<String>;

/// Relies on sysinfo::System::os_version: the operating system's version, if
/// known.
pub assume_specification[ sysinfo::System::os_version ]() -> Option<String>;

/// Relies on sysinfo::System::host_name: the host's name, if known.
pub assume_specification[ sysinfo::System::host_name ]() -> Option<String>;

/// Relies on sysinfo::System::cpus and sysinfo::Cpu::brand: the brand of each
/// logical CPU that the handle knows, in sysinfo's order.
#[verifier::external_body]
fn cpu_brands(sys: &sysinfo::System) -> Vec<String> {
    sys.cpus().iter().map(|cpu| cpu.brand().to_string()).collect()
}

/// Bytes in a mebibyte.
pub const BYTES_PER_MB: u64 = 1_048_576;

/// What the operating system reported at one moment, as plain values.
pub struct SystemSnapshot {
    /// The brand of each logical CPU.
    pub cpu_brands: Vec<String>,
    /// RAM size in bytes.
    pub total_memory: u64,
    /// Unallocated RAM in bytes.
    pub free_memory: u64,
    pub os_name: Option<String>,
    pub os_version: Option<String>,
    pub host_name: Option<String>,
}

/// A hardware summary for the front end.
pub struct HardwareInfo {
    pub cpu: String,
    /// RAM size in mebibytes.
    pub memory_total: u64,
    /// Unallocated RAM in mebibytes.
    pub memory_free: u64,
    pub operating_system: String,
    pub hostname: String,
    /// The number of logical CPUs.
    pub cores: u32,
}

/// The text of an optional string, empty when it is absent.
pub open spec fn text_or_empty(s: Option<String>) -> Seq<char> {
    match s {
        Some(t) => t@,
        None => Seq::empty(),
    }
}

/// Whether `info` is the summary of `snap`: the first CPU's brand (or
/// "Unknown CPU" when there is none), memory in whole mebibytes, the system's
/// name and version joined by a space, the host name (or "Unknown"), and the
/// count of CPUs.
pub open spec fn summarises(snap: SystemSnapshot, info: HardwareInfo) -> bool {
    &&& info.cpu@ == (if snap.cpu_brands@.len() > 0 {
        snap.cpu_brands@[0]@
    } else {
        "Unknown CPU"@
    })
    &&& info.memory_total == snap.total_memory / BYTES_PER_MB
    &&& info.memory_free == snap.free_memory / BYTES_PER_MB
    &&& info.operating_system@ == text_or_empty(snap.os_name) + " "@ + text_or_empty(
        snap.os_version,
    )
    &&& info.hostname@ == (match snap.host_name {
        Some(h) => h@,
        None => "Unknown"@,
    })
    &&& info.cores == snap.cpu_brands@.len() as u32
}

fn text_of(s: &Option<String>) -> (r: &str)
    ensures
        r@ == text_or_empty(*s),
{
    match s {
        Some(t) => t.as_str(),
        None => {
            proof {
                reveal_strlit("");
            }
            ""
        },
    }
}

/// Shapes a snapshot into the summary that the front end shows.
pub fn hardware_info_from(snap: &SystemSnapshot) -> (r: HardwareInfo)
    ensures
        summarises(*snap, r),
{
    let cpu = if snap.cpu_brands.len() > 0 {
        snap.cpu_brands[0].clone()
    } else {
        String::from_str("Unknown CPU")
    };
    let mut operating_system = String::from_str(text_of(&snap.os_name));
    operating_system.append(" ");
    operating_system.append(text_of(&snap.os_version));
    let hostname = match &snap.host_name {
        Some(h) => h.clone(),
        None => String::from_str("Unknown"),
    };
    let cores = snap.cpu_brands.len() as u32;
    HardwareInfo {
        cpu,
        memory_total: snap.total_memory / BYTES_PER_MB,
        memory_free: snap.free_memory / BYTES_PER_MB,
        operating_system,
        hostname,
        cores,
    }
}

/// Reads the current figures from the operating system.
pub fn read_system_snapshot() -> SystemSnapshot {
    let mut sys = sysinfo::System::new_all();
    sys.refresh_all();
    let cpu_brands = cpu_brands(&sys);
    let total_memory = sys.total_memory();
    let free_memory = sys.free_memory();
    let os_name = sysinfo::System::name();
    let os_version = sysinfo::System::os_version();
    let host_name = sysinfo::System::host_name();
    SystemSnapshot { cpu_brands, total_memory, free_memory, os_name, os_version, host_name }
}

/// Reads the hardware summary of this host. It never fails: a figure that
/// the system does not report gets a placeholder.
pub fn get_hardware_info() -> (r: Result<HardwareInfo, String>)
    ensures
        r is Ok,
        exists|snap: SystemSnapshot| #[trigger] summarises(snap, r->Ok_0),
{
    let snap = read_system_snapshot();
    let info = hardware_info_from(&snap);
    let r = Ok(info);
    assert(summarises(snap, r->Ok_0));
    r
}

/// When the system reports at least one CPU (and no more than `u32` counts)
/// and no more free memory than memory in all, the summary shows at least one
/// core and no more free memory than memory in all.
pub proof fn lemma_summary_bounds(snap: SystemSnapshot, info: HardwareInfo)
    requires
        summarises(snap, info),
        1 <= snap.cpu_brands@.len() <= u32::MAX,
        snap.free_memory <= snap.total_memory,
    ensures
        info.cores >= 1,
        info.memory_free <= info.memory_total,
{
    vstd::arithmetic::div_mod::lemma_div_is_ordered(
        snap.free_memory as int,
        snap.total_memory as int,
        BYTES_PER_MB as int,
    );
}

} // verus!
