//! The figures a status report carries, and the text fields of the report
//! that the client composes itself.
use vstd::prelude::*;

verus! {

/// Physical memory, in bytes: what is still available and the total.
#[derive(Clone, Copy, Debug, PartialEq, Eq, Structural)]
pub struct RamData {
    pub free: u64,
    pub total: u64,
}

/// Swap space, in bytes: what is free and the total.
#[derive(Clone, Copy, Debug, PartialEq, Eq, Structural)]
pub struct SwapData {
    pub free: u64,
    pub total: u64,
}

/// One mounted disk: its name, its available space and its size, in bytes.
#[derive(Clone, Debug)]
pub struct StorageData {
    pub name: String,
    pub free: u64,
    pub total: u64,
}

/// Graphics memory, in MiB: what is free and the total.
#[derive(Clone, Copy, Debug, PartialEq, Eq, Structural)]
pub struct GpuMemory {
    pub free: u64,
    pub total: u64,
}

/// A graphics card: its name, its utilisation in percent where the tool
/// reports one, and its memory.
#[derive(Clone, Debug)]
pub struct GpuData {
    pub name: String,
    pub usage: Option<u64>,
    pub memory: GpuMemory,
}

/// A graphics card as a mathematical value.
pub struct GpuDataView {
    pub name: Seq<char>,
    pub usage: Option<u64>,
    pub memory: GpuMemory,
}

impl View for GpuData {
    type V = GpuDataView;

    open spec fn view(&self) -> GpuDataView {
        GpuDataView { name: self.name@, usage: self.usage, memory: self.memory }
    }
}

/// One processor core's usage, in whole percent.
#[derive(Clone, Copy, Debug, PartialEq, Eq, Structural)]
pub struct CpuCoreUsage {
    pub cpu: i16,
}

/// The version of the operating system that a report names: the system's own
/// version where it has one, else its kernel version.
pub open spec fn chosen_os_version(
    os_version: Option<Seq<char>>,
    kernel_version: Option<Seq<char>>,
) -> Seq<char> {
    match os_version {
        Some(v) => v,
        None => kernel_version.unwrap(),
    }
}

/// The view of an optional text.
pub open spec fn opt_view(s: Option<&str>) -> Option<Seq<char>> {
    match s {
        Some(t) => Some(t@),
        None => None,
    }
}

/// The operating-system field of a report: `"<name> <version>"`, the version
/// being the system's own where it has one and else the kernel's.
pub fn os_label(name: &str, os_version: Option<&str>, kernel_version: Option<&str>) -> (label:
    String)
    requires
        os_version is Some || kernel_version is Some,
    ensures
        label@ == name@ + " "@ + chosen_os_version(opt_view(os_version), opt_view(kernel_version)),
        os_version matches Some(v) ==> label@ == name@ + " "@ + v@,
        os_version is None ==> label@ == name@ + " "@ + kernel_version.unwrap()@,
{
    let version = match os_version {
        Some(v) => v,
        None => match kernel_version {
            Some(k) => k,
            None => "",
        },
    };
    let mut label = String::from_str(name);
    label.append(" ");
    label.append(version);
    label
}

/// The client field of a report: `"Rust client v<version>"`.
pub fn client_version_label(version: &str) -> (label: String)
    ensures
        label@ == "Rust client v"@ + version@,
{
    let mut label = String::from_str("Rust client v");
    label.append(version);
    label
}

/// The host name a report shows: the one the user set where there is one,
/// else the machine's own.
pub fn resolve_hostname(configured: Option<String>, machine: Option<String>) -> (name: String)
    requires
        configured is Some || machine is Some,
    ensures
        name@ == (match configured {
            Some(c) => c@,
            None => machine.unwrap()@,
        }),
{
    match configured {
        Some(c) => c,
        None => match machine {
            Some(m) => m,
            None => String::new(),
        },
    }
}

/// The system's own version is always the one named when there is one, the
/// kernel version only when there is not.
pub proof fn lemma_os_version_preferred(v: Seq<char>, kernel: Option<Seq<char>>, k: Seq<char>)
    ensures
        chosen_os_version(Some(v), kernel) == v,
        chosen_os_version(None, Some(k)) == k,
{
}

} // verus!
