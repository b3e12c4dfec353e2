//! The fact provider: one best-effort lookup per system fact, each
//! collapsing any failure into a fixed fallback string, gathered once
//! into a plain record that the modules render from.
use vstd::prelude::*;

use crate::memory::format_memory;
use crate::memory::spec_format_memory;
use crate::shell::extract_shell_name;
use crate::shell::lemma_before_dot_no_dot;
use crate::shell::spec_before_dot;

verus! {

#[verifier::external_type_specification]
#[verifier::external_body]
pub struct ExSystem(sysinfo::System);

#[verifier::external_type_specification]
#[verifier::external_body]
pub struct ExPid(sysinfo::Pid);

#[verifier::external_type_specification]
#[verifier::external_body]
pub struct ExProcess(sysinfo::Process);

/// Relies on sysinfo::System::new_all: a fresh system handle with
/// processes, memory and CPUs already refreshed once.
#[verifier::external_body]
pub(crate) fn new_system() -> sysinfo::System {
    sysinfo::System::new_all()
}

/// Relies on sysinfo::System::refresh_memory: re-reads the memory
/// counters on the handle.
#[verifier::external_body]
pub(crate) fn refresh_memory(sys: &mut sysinfo::System) {
    sys.refresh_memory()
}

/// Relies on sysinfo::System::used_memory: used memory in bytes, as the
/// operating system reports it.
#[verifier::external_body]
pub(crate) fn used_memory(sys: &sysinfo::System) -> u64 {
    sys.used_memory()
}

/// Relies on sysinfo::System::total_memory: total memory in bytes, as
/// the operating system reports it.
#[verifier::external_body]
pub(crate) fn total_memory(sys: &sysinfo::System) -> u64 {
    sys.total_memory()
}

/// Relies on sysinfo::System::kernel_long_version: a human-readable
/// kernel identifier.
#[verifier::external_body]
pub(crate) fn kernel_long_version() -> String {
    sysinfo::System::kernel_long_version()
}

/// Relies on sysinfo::System::uptime: seconds since boot.
#[verifier::external_body]
pub(crate) fn uptime_seconds() -> u64 {
    sysinfo::System::uptime()
}

/// Relies on sysinfo::get_current_pid: the identifier of the running
/// process, when the platform can give it.
#[verifier::external_body]
pub(crate) fn current_pid() -> Option<sysinfo::Pid> {
    sysinfo::get_current_pid().ok()
}

/// Relies on sysinfo::System::process: the process with the given
/// identifier, when the refreshed process table holds it.
#[verifier::external_body]
pub(crate) fn process_of<'a>(sys: &'a sysinfo::System, pid: sysinfo::Pid) -> Option<
    &'a sysinfo::Process,
> {
    sys.process(pid)
}

/// Relies on sysinfo::Process::parent: the parent process identifier,
/// when one is known.
#[verifier::external_body]
pub(crate) fn parent_of(p: &sysinfo::Process) -> Option<sysinfo::Pid> {
    p.parent()
}

/// Relies on sysinfo::Process::name: the process's executable name,
/// with any ill-formed characters replaced.
#[verifier::external_body]
pub(crate) fn process_name(p: &sysinfo::Process) -> String {
    p.name().to_string_lossy().into_owned()
}

/// Relies on sysinfo::System::cpus and sysinfo::Cpu::brand: one
/// human-readable brand string per refreshed logical core, in core
/// order.
#[verifier::external_body]
pub(crate) fn cpu_brands(sys: &sysinfo::System) -> Vec<String> {
    sys.cpus().iter().map(|c| c.brand().to_string()).collect()
}

/// Relies on whoami::username: the current user's name, when the
/// platform can give it.
#[verifier::external_body]
pub(crate) fn username() -> Option<String> {
    whoami::username().ok()
}

/// Relies on whoami::devicename: the device's display name, when the
/// platform can give it.
#[verifier::external_body]
pub(crate) fn devicename() -> Option<String> {
    whoami::devicename().ok()
}

/// Relies on whoami::distro: the operating-system distribution name,
/// when the platform can give it.
#[verifier::external_body]
pub(crate) fn distro() -> Option<String> {
    whoami::distro().ok()
}

/// Every fact a module renders from, queried once and held as plain
/// values; memory is kept in bytes and formatted at render time.
pub struct Facts {
    pub os: String,
    pub kernel: String,
    pub uptime_seconds: u64,
    pub shell: String,
    pub used_memory: u64,
    pub total_memory: u64,
    pub cpu: String,
    pub gpu: String,
}

/// Collapses a failed lookup into the fallback "unknown".
pub fn or_unknown(value: Option<String>) -> (r: String)
    ensures
        match value {
            Some(v) => r@ == v@,
            None => r@ == "unknown"@,
        },
{
    match value {
        Some(v) => v,
        None => String::from_str("unknown"),
    }
}

/// The GPU line's value: the first enumerated adapter name, or
/// "Unknown" when the platform found none.
pub fn gpu_label(name: Option<String>) -> (r: String)
    ensures
        match name {
            Some(n) => r@ == n@,
            None => r@ == "Unknown"@,
        },
{
    match name {
        Some(n) => n,
        None => String::from_str("Unknown"),
    }
}

/// The running shell's name: the parent process's executable name cut
/// off before its first dot, or "unknown" when any lookup on the way to
/// it fails.
pub fn get_current_shell(sys: &sysinfo::System) -> (r: String)
    ensures
        r@ == "unknown"@ || (exists|raw: Seq<char>| r@ == spec_before_dot(raw)),
        forall|i: int| 0 <= i < r@.len() ==> r@[i] != '.',
{
    proof {
        reveal_strlit("unknown");
    }
    let pid = match current_pid() {
        Some(p) => p,
        None => {
            return String::from_str("unknown");
        },
    };
    let me = match process_of(sys, pid) {
        Some(p) => p,
        None => {
            return String::from_str("unknown");
        },
    };
    let ppid = match parent_of(me) {
        Some(p) => p,
        None => {
            return String::from_str("unknown");
        },
    };
    let parent = match process_of(sys, ppid) {
        Some(p) => p,
        None => {
            return String::from_str("unknown");
        },
    };
    let name = process_name(parent);
    let r = extract_shell_name(name.as_str());
    proof {
        assert(r@ == spec_before_dot(name@));
        lemma_before_dot_no_dot(name@);
    }
    r
}

/// The memory line's value for the handle's freshly refreshed counters:
/// whatever bytes the counters show, the result is those counts
/// rendered as two-decimal mebibyte values.
pub fn get_memory(sys: &mut sysinfo::System) -> (r: String)
    ensures
        exists|u: u64, t: u64| r@ == spec_format_memory(u, t),
{
    refresh_memory(sys);
    let u = used_memory(sys);
    let t = total_memory(sys);
    let r = format_memory(u, t);
    proof {
        assert(r@ == spec_format_memory(u, t));
    }
    r
}

/// The CPU line's value for a given core list: the first core's brand
/// string, or "unknown" when the list is empty.
pub fn first_brand(brands: &Vec<String>) -> (r: String)
    ensures
        brands@.len() == 0 ==> r@ == "unknown"@,
        brands@.len() > 0 ==> r@ == brands@[0]@,
{
    if brands.len() > 0 {
        brands[0].clone()
    } else {
        String::from_str("unknown")
    }
}

/// The CPU line's value on this machine: the brand string of the first
/// logical core the handle knows, or "unknown" when it knows none.
pub fn get_cpu_brand(sys: &sysinfo::System) -> (r: String) {
    let brands = cpu_brands(sys);
    first_brand(&brands)
}

/// Queries every fact once, from one fresh system handle, substituting
/// the fixed fallbacks where a lookup fails. The GPU adapter name is
/// handed in by the caller, from whatever enumeration the platform
/// offers; `None` becomes "Unknown".
pub fn gather_facts(gpu_name: Option<String>) -> (f: Facts)
    ensures
        match gpu_name {
            Some(n) => f.gpu@ == n@,
            None => f.gpu@ == "Unknown"@,
        },
        f.shell@ == "unknown"@ || (exists|raw: Seq<char>| f.shell@ == spec_before_dot(raw)),
        forall|i: int| 0 <= i < f.shell@.len() ==> f.shell@[i] != '.',
{
    let mut sys = new_system();
    refresh_memory(&mut sys);
    let used = used_memory(&sys);
    let total = total_memory(&sys);
    Facts {
        os: or_unknown(distro()),
        kernel: kernel_long_version(),
        uptime_seconds: uptime_seconds(),
        shell: get_current_shell(&sys),
        used_memory: used,
        total_memory: total,
        cpu: get_cpu_brand(&sys),
        gpu: gpu_label(gpu_name),
    }
}

} // verus!
