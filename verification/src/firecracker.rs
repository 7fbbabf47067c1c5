//! Firecracker: the jail layout of its files, its process configuration
//! and the types of its API.

use crate::kernel_cmdline::{chelsea_params, push_chelsea_params};
use crate::network_names::MacAddr;
use crate::paths::{is_absolute, is_absolute_path, path_file_name, path_join, pushed_path,
    root_stripped, strip_root, file_name_of};
use crate::text::{push_str, string_from_chars};
use crate::vm_id::{uuid_text, uuid_to_string};
use vstd::prelude::*;

verus! {

/// The root of all Firecracker jails; a hardcoded assumption of the jailer.
pub open spec fn jail_dir_root() -> Seq<char> {
    "/srv/jailer/firecracker"@
}

/// The chroot directory of a VM: `/srv/jailer/firecracker/{vm_id}/root`.
pub open spec fn jail_root(vm_id: u128) -> Seq<char> {
    pushed_path(pushed_path(jail_dir_root(), uuid_text(vm_id)), "root"@)
}

/// Returns the chroot dir for a given VM ID.
pub fn get_jail_root_by_vm_id(vm_id: u128) -> (r: String)
    ensures
        r@ == jail_root(vm_id),
{
    let id_text = uuid_to_string(vm_id);
    let dir = path_join("/srv/jailer/firecracker", id_text.as_str());
    path_join(dir.as_str(), "root")
}

/// The view of a [`PathBufJailer`]: the VM and the jail-relative path.
pub struct PathBufJailerView {
    pub vm_id: u128,
    pub inner: Seq<char>,
}

/// A path inside a VM's Firecracker jail: it resolves to
/// `/srv/jailer/firecracker/{vm_id}/root` followed by the path.
#[derive(Clone, Debug)]
pub struct PathBufJailer {
    vm_id: u128,
    inner: String,
}

impl View for PathBufJailer {
    type V = PathBufJailerView;

    closed spec fn view(&self) -> PathBufJailerView {
        PathBufJailerView { vm_id: self.vm_id, inner: self.inner@ }
    }
}

/// The host path of a jailed path: the jail root with the path appended (an
/// absolute path is appended without its root, not substituted).
pub open spec fn host_path(p: PathBufJailerView) -> Seq<char> {
    pushed_path(
        jail_root(p.vm_id),
        if is_absolute_path(p.inner) {
            root_stripped(p.inner)
        } else {
            p.inner
        },
    )
}

impl PathBufJailer {
    /// Wraps a path that Firecracker refers to from inside the jail.
    pub fn new(vm_id: u128, inner: String) -> (r: Self)
        ensures
            r@.vm_id == vm_id,
            r@.inner == inner@,
    {
        PathBufJailer { vm_id, inner }
    }

    /// The fully-qualified path from the perspective of the host (includes
    /// the jail root).
    pub fn with_jail_root(&self) -> (r: String)
        ensures
            r@ == host_path(self@),
    {
        let base = get_jail_root_by_vm_id(self.vm_id);
        if is_absolute(self.inner.as_str()) {
            let relative = strip_root(self.inner.as_str());
            path_join(base.as_str(), relative.as_str())
        } else {
            path_join(base.as_str(), self.inner.as_str())
        }
    }

    /// The jail-relative path from the perspective of the chrooted process.
    pub fn without_jail_root(&self) -> (r: String)
        ensures
            r@ == self@.inner,
    {
        self.inner.clone()
    }

    /// The final component of the jail-relative path.
    pub fn file_name(&self) -> (r: Option<String>)
        ensures
            r is None <==> file_name_of(self@.inner) is None,
            r matches Some(s) ==> file_name_of(self@.inner) == Some(s@),
    {
        path_file_name(self.inner.as_str())
    }
}

/// Returns the default log path for a given VM: a jailed `/firecracker.log`.
pub fn default_log_path(vm_id: u128) -> (r: PathBufJailer)
    ensures
        r@.vm_id == vm_id,
        r@.inner == "/firecracker.log"@,
{
    PathBufJailer::new(vm_id, string_of("/firecracker.log"))
}

/// An owned copy of a text.
pub fn string_of(s: &str) -> (r: String)
    ensures
        r@ == s@,
{
    let mut out: Vec<char> = Vec::new();
    push_str(&mut out, s);
    assert(out@ =~= s@);
    string_from_chars(out)
}

/// The paths of a state/memory file pair of a Firecracker snapshot, inside
/// the VM's jail.
#[derive(Debug)]
pub struct FirecrackerSnapshotPaths {
    pub mem_file_path: PathBufJailer,
    pub state_file_path: PathBufJailer,
}

impl FirecrackerSnapshotPaths {
    /// The paths for snapshot `snapshot_id` of VM `vm_id`, in the VM's jail:
    /// `/{snapshot_id}.memory` and `/{snapshot_id}.state`.
    pub fn new(vm_id: u128, snapshot_id: u128) -> (r: Self)
        ensures
            r.mem_file_path@.vm_id == vm_id,
            r.mem_file_path@.inner == "/"@ + uuid_text(snapshot_id) + ".memory"@,
            r.state_file_path@.vm_id == vm_id,
            r.state_file_path@.inner == "/"@ + uuid_text(snapshot_id) + ".state"@,
    {
        let id_text = uuid_to_string(snapshot_id);
        let mut mem: Vec<char> = Vec::new();
        push_str(&mut mem, "/");
        push_str(&mut mem, id_text.as_str());
        push_str(&mut mem, ".memory");
        let mut state: Vec<char> = Vec::new();
        push_str(&mut state, "/");
        push_str(&mut state, id_text.as_str());
        push_str(&mut state, ".state");
        FirecrackerSnapshotPaths {
            mem_file_path: PathBufJailer::new(vm_id, string_from_chars(mem)),
            state_file_path: PathBufJailer::new(vm_id, string_from_chars(state)),
        }
    }
}

/// The state of a Firecracker instance, as `describeInstance` reports it.
#[derive(Debug, Clone, Copy, PartialEq, Eq)]
pub enum FirecrackerInstanceState {
    NotStarted,
    Running,
    Paused,
}

/// The answer of the `describeInstance` API call (`GET /`).
#[derive(Debug, Clone)]
pub struct FirecrackerInstanceInfo {
    pub app_name: String,
    pub id: String,
    pub state: FirecrackerInstanceState,
    pub vmm_version: String,
}

/// The CPU template: a set of CPU flags hidden from the guest so that it sees
/// the features of the selected instance type (deprecated by Firecracker).
#[derive(Debug, Clone, Copy, PartialEq, Eq)]
pub enum CpuTemplate {
    C3,
    T2,
    T2S,
    T2CL,
    T2A,
    V1N1,
    /// No template (`None` in Firecracker's API).
    NoTemplate,
}

impl Default for CpuTemplate {
    fn default() -> (r: Self)
        ensures
            r == CpuTemplate::NoTemplate,
    {
        CpuTemplate::NoTemplate
    }
}

/// Which huge pages (if any) back guest memory.
#[derive(Debug, Clone, Copy, PartialEq, Eq)]
pub enum HugePages {
    /// No huge pages (`None` in Firecracker's API).
    NoHugePages,
    /// 2 MiB huge pages (`2M` in Firecracker's API).
    TwoM,
}

impl Default for HugePages {
    fn default() -> (r: Self)
        ensures
            r == HugePages::NoHugePages,
    {
        HugePages::NoHugePages
    }
}

/// The machine configuration of a Firecracker VM.
#[derive(Debug, Clone, Copy, PartialEq, Eq)]
pub struct MachineConfiguration {
    /// The CPU template.
    pub cpu_template: Option<CpuTemplate>,
    /// Simultaneous multithreading (x86 only).
    pub smt: Option<bool>,
    /// Memory size of the VM, in MiB.
    pub mem_size_mib: u32,
    /// Dirty page tracking, which incremental memory snapshots need.
    pub track_dirty_pages: Option<bool>,
    /// Number of vCPUs (at most 32).
    pub vcpu_count: u32,
    /// Which huge pages back guest memory.
    pub huge_pages: Option<HugePages>,
}

impl MachineConfiguration {
    /// The default machine: the configured default memory size and vCPU
    /// count, 2 MiB huge pages when the host is configured to use them, and
    /// Firecracker's own defaults for everything else.
    pub fn with_defaults(mem_size_mib: u32, vcpu_count: u32, use_huge_pages: bool) -> (r: Self)
        ensures
            r.cpu_template is None,
            r.smt is None,
            r.mem_size_mib == mem_size_mib,
            r.track_dirty_pages is None,
            r.vcpu_count == vcpu_count,
            r.huge_pages == (if use_huge_pages {
                Some(HugePages::TwoM)
            } else {
                None
            }),
    {
        MachineConfiguration {
            cpu_template: None,
            smt: None,
            mem_size_mib,
            track_dirty_pages: None,
            vcpu_count,
            huge_pages: if use_huge_pages {
                Some(HugePages::TwoM)
            } else {
                None
            },
        }
    }
}

/// The kernel and its command line.
pub struct FirecrackerProcessBootSourceConfig {
    /// The path to the kernel.
    pub kernel_path: PathBufJailer,
    /// The kernel boot args.
    pub boot_args: String,
}

/// The VM's drive.
pub struct FirecrackerProcessDriveConfig {
    /// The drive ID, eg: root.
    pub drive_id: String,
    /// The path to the drive on the host.
    pub path_on_host: String,
    /// Whether the drive is the root device.
    pub is_root_device: bool,
    /// Whether the drive is read only.
    pub is_read_only: bool,
}

/// The VM's network interface.
pub struct FirecrackerProcessNetworkConfig {
    /// The guest MAC address; the guest derives its IP from it
    /// (`06:00:xx:xx:xx:xx`).
    pub guest_mac: MacAddr,
    /// The device that delivers ethernet frames to the VM, eg: a TAP device.
    pub host_dev_name: String,
    /// The network interface ID.
    pub iface_id: String,
}

/// Firecracker's log verbosity.
#[derive(Debug, Clone, Copy, PartialEq, Eq)]
pub enum FirecrackerProcessLoggerLogLevel {
    Error,
    Warning,
    Info,
    Debug,
    Trace,
    Off,
}

/// The name of a log level, as Firecracker's API spells it.
pub open spec fn log_level_name(l: FirecrackerProcessLoggerLogLevel) -> Seq<char> {
    match l {
        FirecrackerProcessLoggerLogLevel::Error => "Error"@,
        FirecrackerProcessLoggerLogLevel::Warning => "Warning"@,
        FirecrackerProcessLoggerLogLevel::Info => "Info"@,
        FirecrackerProcessLoggerLogLevel::Debug => "Debug"@,
        FirecrackerProcessLoggerLogLevel::Trace => "Trace"@,
        FirecrackerProcessLoggerLogLevel::Off => "Off"@,
    }
}

impl FirecrackerProcessLoggerLogLevel {
    /// The name of the level, as Firecracker's API spells it.
    pub fn to_string(&self) -> (r: String)
        ensures
            r@ == log_level_name(*self),
    {
        match self {
            FirecrackerProcessLoggerLogLevel::Error => string_of("Error"),
            FirecrackerProcessLoggerLogLevel::Warning => string_of("Warning"),
            FirecrackerProcessLoggerLogLevel::Info => string_of("Info"),
            FirecrackerProcessLoggerLogLevel::Debug => string_of("Debug"),
            FirecrackerProcessLoggerLogLevel::Trace => string_of("Trace"),
            FirecrackerProcessLoggerLogLevel::Off => string_of("Off"),
        }
    }
}

/// Where and how Firecracker logs.
pub struct FirecrackerProcessLoggerConfig {
    /// The path that Firecracker logs to.
    pub log_path: PathBufJailer,
    /// The log verbosity level.
    pub level: FirecrackerProcessLoggerLogLevel,
    /// Whether the log includes the level.
    pub show_level: bool,
    /// Whether the log includes the origin.
    pub show_origin: bool,
}

impl FirecrackerProcessLoggerConfig {
    /// Debug-level logging to the VM's default log path, with level and
    /// origin shown.
    pub fn with_defaults(vm_id: u128) -> (r: Self)
        ensures
            r.log_path@.vm_id == vm_id,
            r.log_path@.inner == "/firecracker.log"@,
            r.level == FirecrackerProcessLoggerLogLevel::Debug,
            r.show_level,
            r.show_origin,
    {
        FirecrackerProcessLoggerConfig {
            log_path: default_log_path(vm_id),
            level: FirecrackerProcessLoggerLogLevel::Debug,
            show_level: true,
            show_origin: true,
        }
    }
}

/// The vsock device, for host-to-guest communication without the network.
pub struct FirecrackerProcessVsockConfig {
    /// The vsock device identifier.
    pub vsock_id: String,
    /// The guest context ID.
    pub guest_cid: u64,
    /// The Unix socket Firecracker creates for the device (jail-relative).
    pub uds_path: PathBufJailer,
}

impl FirecrackerProcessVsockConfig {
    /// The standard vsock device: `vsock0`, guest CID 3, socket
    /// `/run/vsock.sock` inside the jail.
    pub fn with_defaults(vm_id: u128) -> (r: Self)
        ensures
            r.vsock_id@ == "vsock0"@,
            r.guest_cid == 3,
            r.uds_path@.vm_id == vm_id,
            r.uds_path@.inner == "/run/vsock.sock"@,
    {
        FirecrackerProcessVsockConfig {
            vsock_id: string_of("vsock0"),
            guest_cid: 3,
            uds_path: PathBufJailer::new(vm_id, string_of("/run/vsock.sock")),
        }
    }
}

/// The kernel command line of a Firecracker guest.
pub open spec fn boot_args_text(entropy: u128, vm_id: u128, ssh_pubkey_b64: Seq<char>, notify_boot_url_template: Seq<char>) -> Seq<char> {
    "console=ttyS0 reboot=k panic=1 pci=off quiet loglevel=1 nomodule 8250.nr_uarts=0 i8042.noaux i8042.nomux i8042.dumbkbd swiotlb=noforce "@
        + chelsea_params(entropy, vm_id, ssh_pubkey_b64, notify_boot_url_template)
}

/// The complete configuration of a Firecracker process. Because the jailer
/// spawns Firecracker, every path it is given is jail-relative.
pub struct FirecrackerProcessConfig {
    pub boot_source: FirecrackerProcessBootSourceConfig,
    pub drive: FirecrackerProcessDriveConfig,
    /// Deprecated; unused.
    pub logger: FirecrackerProcessLoggerConfig,
    pub machine: MachineConfiguration,
    pub network: FirecrackerProcessNetworkConfig,
}

impl FirecrackerProcessConfig {
    /// Assembles the configuration of a new VM's process: its kernel from
    /// the kernel directory, the boot arguments (with a fresh entropy seed,
    /// the VM id, the base64 SSH public key and the boot-notification URL
    /// template), its volume as the writable root drive, the default logger,
    /// the requested memory and vCPUs, and its network's TAP device and
    /// guest MAC as `net0`.
    pub fn with_defaults(
        vm_id: u128,
        kernel_dir: &str,
        kernel_name: &str,
        entropy: u128,
        ssh_pubkey_b64: &str,
        notify_boot_url_template: &str,
        volume_path: String,
        machine: MachineConfiguration,
        guest_mac: MacAddr,
        tap_name: String,
    ) -> (r: Self)
        ensures
            r.boot_source.kernel_path@.vm_id == vm_id,
            r.boot_source.kernel_path@.inner == pushed_path(kernel_dir@, kernel_name@),
            r.boot_source.boot_args@ == boot_args_text(
                entropy,
                vm_id,
                ssh_pubkey_b64@,
                notify_boot_url_template@,
            ),
            r.drive.drive_id@ == "root"@,
            r.drive.path_on_host == volume_path,
            r.drive.is_root_device,
            !r.drive.is_read_only,
            r.logger.log_path@.vm_id == vm_id,
            r.logger.log_path@.inner == "/firecracker.log"@,
            r.logger.level == FirecrackerProcessLoggerLogLevel::Debug,
            r.machine == machine,
            r.network.guest_mac == guest_mac,
            r.network.host_dev_name == tap_name,
            r.network.iface_id@ == "net0"@,
    {
        let kernel_path = PathBufJailer::new(vm_id, path_join(kernel_dir, kernel_name));
        let mut args: Vec<char> = Vec::new();
        push_str(
            &mut args,
            "console=ttyS0 reboot=k panic=1 pci=off quiet loglevel=1 nomodule 8250.nr_uarts=0 i8042.noaux i8042.nomux i8042.dumbkbd swiotlb=noforce ",
        );
        push_chelsea_params(&mut args, entropy, vm_id, ssh_pubkey_b64, notify_boot_url_template);
        FirecrackerProcessConfig {
            boot_source: FirecrackerProcessBootSourceConfig {
                kernel_path,
                boot_args: string_from_chars(args),
            },
            drive: FirecrackerProcessDriveConfig {
                drive_id: string_of("root"),
                path_on_host: volume_path,
                is_root_device: true,
                is_read_only: false,
            },
            logger: FirecrackerProcessLoggerConfig::with_defaults(vm_id),
            machine,
            network: FirecrackerProcessNetworkConfig {
                guest_mac,
                host_dev_name: tap_name,
                iface_id: string_of("net0"),
            },
        }
    }
}

} // verus!
