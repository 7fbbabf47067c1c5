//! Cloud Hypervisor: the per-VM working directory and the paths inside it,
//! its process configuration, and the types of its API.

use crate::firecracker::string_of;
use crate::kernel_cmdline::{chelsea_params, push_chelsea_params};
use crate::network_names::{mac_text, MacAddr};
use crate::paths::{file_name_of, is_absolute, is_absolute_path, path_file_name, path_join,
    pushed_path, root_stripped, strip_root};
use crate::text::{push_str, string_from_chars};
use crate::vm_id::{lemma_uuid_text_injective, lemma_uuid_text_no_slash, uuid_text, uuid_to_string};
use vstd::prelude::*;

verus! {

/// The root of the Cloud Hypervisor working directories (not a chroot).
pub open spec fn jail_dir_root() -> Seq<char> {
    "/srv/jailer/cloud-hypervisor"@
}

/// The working directory of a VM: `/srv/jailer/cloud-hypervisor/{vm_id}`.
pub open spec fn jail_root(vm_id: u128) -> Seq<char> {
    pushed_path(jail_dir_root(), uuid_text(vm_id))
}

/// Returns the working directory for a given VM ID.
pub fn get_jail_root_by_vm_id(vm_id: u128) -> (r: String)
    ensures
        r@ == jail_root(vm_id),
{
    let id_text = uuid_to_string(vm_id);
    path_join("/srv/jailer/cloud-hypervisor", id_text.as_str())
}

/// The view of a [`PathBufJailer`]: the VM and the path.
pub struct PathBufJailerView {
    pub vm_id: u128,
    pub inner: Seq<char>,
}

/// A path of a VM's Cloud Hypervisor files: an absolute path stands for
/// itself, a relative one lies in the VM's working directory.
#[derive(Clone, Debug)]
pub struct PathBufJailer {
    vm_id: u128,
    inner: String,
}

impl View for PathBufJailer {
    type V = PathBufJailerView;

    closed spec fn view(&self) -> PathBufJailerView {
        PathBufJailerView { vm_id: self.vm_id, inner: self.inner@ }
    }
}

/// The host path: the path in the VM's working directory (an absolute path
/// is appended without its leading slash).
pub open spec fn host_path(p: PathBufJailerView) -> Seq<char> {
    pushed_path(
        jail_root(p.vm_id),
        if is_absolute_path(p.inner) {
            root_stripped(p.inner)
        } else {
            p.inner
        },
    )
}

impl PathBufJailer {
    /// Wraps a path of a VM's files.
    pub fn new(vm_id: u128, inner: String) -> (r: Self)
        ensures
            r@.vm_id == vm_id,
            r@.inner == inner@,
    {
        PathBufJailer { vm_id, inner }
    }

    /// The fully-qualified path from the perspective of the host.
    pub fn with_jail_root(&self) -> (r: String)
        ensures
            r@ == host_path(self@),
    {
        let base = get_jail_root_by_vm_id(self.vm_id);
        if is_absolute(self.inner.as_str()) {
            let relative = strip_root(self.inner.as_str());
            path_join(base.as_str(), relative.as_str())
        } else {
            path_join(base.as_str(), self.inner.as_str())
        }
    }

    /// The path as given.
    pub fn without_jail_root(&self) -> (r: String)
        ensures
            r@ == self@.inner,
    {
        self.inner.clone()
    }

    /// The final component of the path.
    pub fn file_name(&self) -> (r: Option<String>)
        ensures
            r is None <==> file_name_of(self@.inner) is None,
            r matches Some(s) ==> file_name_of(self@.inner) == Some(s@),
    {
        path_file_name(self.inner.as_str())
    }
}

/// Relative paths of two VMs never resolve to the same host path, and within
/// one VM distinct relative paths resolve to distinct host paths: each VM's
/// files stay in its own working directory.
pub proof fn lemma_working_dirs_disjoint(a: PathBufJailerView, b: PathBufJailerView)
    requires
        !is_absolute_path(a.inner),
        !is_absolute_path(b.inner),
        host_path(a) == host_path(b),
    ensures
        a.vm_id == b.vm_id,
        a.inner == b.inner,
{
    let root = jail_dir_root();
    let ua = uuid_text(a.vm_id);
    let ub = uuid_text(b.vm_id);
    lemma_uuid_text_no_slash(a.vm_id);
    lemma_uuid_text_no_slash(b.vm_id);
    assert(ua[0] != '/');
    assert(ub[0] != '/');
    assert(root.len() == 28) by {
        reveal_strlit("/srv/jailer/cloud-hypervisor");
    }
    assert(root.last() == 'r') by {
        reveal_strlit("/srv/jailer/cloud-hypervisor");
    }
    let ja = root + seq!['/'] + ua;
    let jb = root + seq!['/'] + ub;
    assert(jail_root(a.vm_id) == ja);
    assert(jail_root(b.vm_id) == jb);
    assert(ja.last() == ua[35]);
    assert(jb.last() == ub[35]);
    let ha = ja + seq!['/'] + a.inner;
    let hb = jb + seq!['/'] + b.inner;
    assert(host_path(a) == ha);
    assert(host_path(b) == hb);
    assert(ua =~= ha.subrange(29, 65));
    assert(ub =~= hb.subrange(29, 65));
    lemma_uuid_text_injective(a.vm_id, b.vm_id);
    assert(a.inner =~= ha.subrange(66, ha.len() as int));
    assert(b.inner =~= hb.subrange(66, hb.len() as int));
}

/// Returns the default log path for a given VM: `/cloud-hypervisor.log`.
pub fn default_log_path(vm_id: u128) -> (r: PathBufJailer)
    ensures
        r@.vm_id == vm_id,
        r@.inner == "/cloud-hypervisor.log"@,
{
    PathBufJailer::new(vm_id, string_of("/cloud-hypervisor.log"))
}

/// Returns the default API socket path for a given VM: `/run/ch.sock`.
pub fn default_api_socket_path(vm_id: u128) -> (r: PathBufJailer)
    ensures
        r@.vm_id == vm_id,
        r@.inner == "/run/ch.sock"@,
{
    PathBufJailer::new(vm_id, string_of("/run/ch.sock"))
}

/// The kernel and its command line.
pub struct CloudHypervisorProcessKernelConfig {
    pub path: PathBufJailer,
    pub cmdline: String,
}

/// The VM's disk.
pub struct CloudHypervisorProcessDiskConfig {
    pub path: String,
    pub readonly: bool,
}

/// The VM's network interface.
pub struct CloudHypervisorProcessNetworkConfig {
    pub tap: String,
    pub mac: MacAddr,
}

/// The VM's vCPUs.
pub struct CloudHypervisorProcessCpuConfig {
    pub boot_vcpus: u32,
}

/// The VM's memory, in MiB.
pub struct CloudHypervisorProcessMemoryConfig {
    pub size_mib: u32,
}

/// The vsock device, for host-to-guest communication without the network.
pub struct CloudHypervisorProcessVsockConfig {
    /// The guest context ID.
    pub guest_cid: u64,
    /// The Unix socket Cloud Hypervisor creates for the device (relative to
    /// the VM's working directory).
    pub socket_path: PathBufJailer,
}

impl CloudHypervisorProcessVsockConfig {
    /// The standard vsock device: guest CID 3, socket `run/vsock.sock` in
    /// the VM's working directory.
    pub fn with_defaults(vm_id: u128) -> (r: Self)
        ensures
            r.guest_cid == 3,
            r.socket_path@.vm_id == vm_id,
            r.socket_path@.inner == "run/vsock.sock"@,
    {
        CloudHypervisorProcessVsockConfig {
            guest_cid: 3,
            socket_path: PathBufJailer::new(vm_id, string_of("run/vsock.sock")),
        }
    }
}

/// The kernel command line of a Cloud Hypervisor guest.
pub open spec fn cmdline_text(entropy: u128, vm_id: u128, ssh_pubkey_b64: Seq<char>, notify_boot_url_template: Seq<char>) -> Seq<char> {
    "console=ttyS0 reboot=k panic=1 root=/dev/vda rw net.ifnames=0 "@ + chelsea_params(
        entropy,
        vm_id,
        ssh_pubkey_b64,
        notify_boot_url_template,
    ) + " nohz=off"@
}

/// The complete configuration of a Cloud Hypervisor process.
pub struct CloudHypervisorProcessConfig {
    pub vm_id: u128,
    pub api_socket: PathBufJailer,
    pub kernel: CloudHypervisorProcessKernelConfig,
    pub disk: CloudHypervisorProcessDiskConfig,
    pub network: CloudHypervisorProcessNetworkConfig,
    pub cpus: CloudHypervisorProcessCpuConfig,
    pub memory: CloudHypervisorProcessMemoryConfig,
    pub log_file: PathBufJailer,
}

impl CloudHypervisorProcessConfig {
    /// Assembles the configuration of a new VM's process: the API socket,
    /// the kernel from the `kernels` directory of the working directory, the
    /// command line (with a fresh entropy seed, the VM id, the base64 SSH
    /// public key and the boot-notification URL template), the VM's volume
    /// as a writable disk, its network's TAP device and guest MAC, and the
    /// requested vCPUs and memory.
    pub fn with_defaults(
        vm_id: u128,
        kernel_name: &str,
        entropy: u128,
        ssh_pubkey_b64: &str,
        notify_boot_url_template: &str,
        volume_path: String,
        tap_name: String,
        guest_mac: MacAddr,
        vcpu_count: u32,
        mem_size_mib: u32,
    ) -> (r: Self)
        ensures
            r.vm_id == vm_id,
            r.api_socket@.vm_id == vm_id,
            r.api_socket@.inner == "/run/ch.sock"@,
            r.kernel.path@.vm_id == vm_id,
            r.kernel.path@.inner == pushed_path("kernels"@, kernel_name@),
            r.kernel.cmdline@ == cmdline_text(
                entropy,
                vm_id,
                ssh_pubkey_b64@,
                notify_boot_url_template@,
            ),
            r.disk.path == volume_path,
            !r.disk.readonly,
            r.network.tap == tap_name,
            r.network.mac == guest_mac,
            r.cpus.boot_vcpus == vcpu_count,
            r.memory.size_mib == mem_size_mib,
            r.log_file@.vm_id == vm_id,
            r.log_file@.inner == "/cloud-hypervisor.log"@,
    {
        let mut cmdline: Vec<char> = Vec::new();
        push_str(&mut cmdline, "console=ttyS0 reboot=k panic=1 root=/dev/vda rw net.ifnames=0 ");
        push_chelsea_params(
            &mut cmdline,
            entropy,
            vm_id,
            ssh_pubkey_b64,
            notify_boot_url_template,
        );
        push_str(&mut cmdline, " nohz=off");
        CloudHypervisorProcessConfig {
            vm_id,
            api_socket: PathBufJailer::new(vm_id, string_of("/run/ch.sock")),
            kernel: CloudHypervisorProcessKernelConfig {
                path: PathBufJailer::new(vm_id, path_join("kernels", kernel_name)),
                cmdline: string_from_chars(cmdline),
            },
            disk: CloudHypervisorProcessDiskConfig { path: volume_path, readonly: false },
            network: CloudHypervisorProcessNetworkConfig { tap: tap_name, mac: guest_mac },
            cpus: CloudHypervisorProcessCpuConfig { boot_vcpus: vcpu_count },
            memory: CloudHypervisorProcessMemoryConfig { size_mib: mem_size_mib },
            log_file: PathBufJailer::new(vm_id, string_of("/cloud-hypervisor.log")),
        }
    }
}

/// The state of a Cloud Hypervisor VM.
#[derive(Debug, Clone, Copy, PartialEq, Eq)]
pub enum CloudHypervisorVmState {
    Created,
    Running,
    Shutdown,
    Paused,
}

/// The answer of the `vm.info` API call.
#[derive(Debug, Clone)]
pub struct CloudHypervisorVmInfo {
    pub config: CloudHypervisorVmConfig,
    pub state: CloudHypervisorVmState,
}

/// The VM configuration sent with `vm.create` (the parts the host uses).
#[derive(Debug, Clone)]
pub struct CloudHypervisorVmConfig {
    pub cpus: Option<CpusConfig>,
    pub memory: Option<MemoryConfig>,
    pub payload: Option<PayloadConfig>,
    pub disks: Option<Vec<DiskConfig>>,
    pub net: Option<Vec<NetConfig>>,
    pub serial: Option<SerialConfig>,
    pub console: Option<ConsoleConfig>,
    pub vsock: Option<VsockConfig>,
}

/// The kernel (or firmware) to boot and its command line.
#[derive(Debug, Clone)]
pub struct PayloadConfig {
    pub kernel: Option<String>,
    pub cmdline: Option<String>,
}

/// vCPUs at boot, and the most that may be hot-plugged.
#[derive(Debug, Clone, Copy, PartialEq, Eq)]
pub struct CpusConfig {
    pub boot_vcpus: u32,
    pub max_vcpus: Option<u32>,
}

/// Guest memory, in bytes.
#[derive(Debug, Clone, Copy, PartialEq, Eq)]
pub struct MemoryConfig {
    pub size: u64,
}

/// The number of bytes in `mib` MiB.
pub open spec fn mib_to_bytes(mib: nat) -> nat {
    mib * 1048576
}

impl MemoryConfig {
    /// The memory of `size_mib` MiB.
    pub fn from_mib(size_mib: u32) -> (r: Self)
        ensures
            r.size == mib_to_bytes(size_mib as nat),
    {
        MemoryConfig { size: size_mib as u64 * 1048576 }
    }
}

/// A kernel and its command line.
#[derive(Debug, Clone)]
pub struct KernelConfig {
    pub path: String,
    pub cmdline: Option<String>,
}

/// A disk of the VM.
#[derive(Debug, Clone)]
pub struct DiskConfig {
    pub path: String,
    pub readonly: Option<bool>,
    /// Direct I/O, which raw block devices (RBD) need.
    pub direct: Option<bool>,
    /// The identifier Cloud Hypervisor resizes the disk by.
    pub id: Option<String>,
}

/// A network interface of the VM.
#[derive(Debug, Clone)]
pub struct NetConfig {
    pub tap: Option<String>,
    pub mac: Option<String>,
    pub num_queues: Option<u32>,
}

/// The serial port.
#[derive(Debug, Clone)]
pub struct SerialConfig {
    pub file: Option<String>,
    pub mode: Option<String>,
}

/// The console.
#[derive(Debug, Clone)]
pub struct ConsoleConfig {
    pub mode: String,
}

/// The vsock device of the VM.
#[derive(Debug, Clone)]
pub struct VsockConfig {
    /// The guest context ID (at least 3).
    pub cid: u64,
    /// The Unix socket on the host for vsock connections.
    pub socket: String,
    /// An optional device ID.
    pub id: Option<String>,
}

/// The argument of the `vm.snapshot` API call.
#[derive(Debug, Clone)]
pub struct VmSnapshotConfig {
    /// Where the snapshot goes (`file:///path/to/dir`).
    pub destination_url: String,
}

/// The argument of the `vm.restore` API call.
#[derive(Debug, Clone)]
pub struct VmRestoreConfig {
    /// Where the snapshot comes from (`file:///path/to/dir`).
    pub source_url: String,
    /// Whether to prefault memory on restore.
    pub prefault: Option<bool>,
}

/// The argument of the `vm.resize` API call (CPU/memory hotplug).
#[derive(Debug, Clone)]
pub struct VmResizeConfig {
    pub cpus: Option<CpusConfig>,
    pub memory: Option<MemoryConfig>,
    pub memory_zones: Option<Vec<MemoryZoneConfig>>,
}

impl Default for VmResizeConfig {
    fn default() -> (r: Self)
        ensures
            r.cpus is None,
            r.memory is None,
            r.memory_zones is None,
    {
        VmResizeConfig { cpus: None, memory: None, memory_zones: None }
    }
}

/// The argument of the `vm.resize-disk` API call, which tells the guest
/// kernel that a block device has grown.
#[derive(Debug, Clone)]
pub struct VmResizeDiskConfig {
    /// The disk ID Cloud Hypervisor assigned (eg `_disk0`).
    pub id: String,
    /// The new size, in bytes.
    pub desired_size: u64,
}

/// A memory zone (for hotplug).
#[derive(Debug, Clone)]
pub struct MemoryZoneConfig {
    pub id: String,
    pub size_mib: u64,
}

impl CloudHypervisorVmConfig {
    /// The default VM: the configured default vCPU count and memory size,
    /// and nothing else set.
    pub fn with_defaults(default_vcpu_count: u32, default_mem_size_mib: u32) -> (r: Self)
        ensures
            r.cpus == Some(CpusConfig { boot_vcpus: default_vcpu_count, max_vcpus: None }),
            r.memory == Some(MemoryConfig { size: mib_to_bytes(default_mem_size_mib as nat) as u64 }),
            r.payload is None,
            r.disks is None,
            r.net is None,
            r.serial is None,
            r.console is None,
            r.vsock is None,
    {
        CloudHypervisorVmConfig {
            cpus: Some(CpusConfig { boot_vcpus: default_vcpu_count, max_vcpus: None }),
            memory: Some(MemoryConfig::from_mib(default_mem_size_mib)),
            payload: None,
            disks: None,
            net: None,
            serial: None,
            console: None,
            vsock: None,
        }
    }
}

impl CloudHypervisorVmConfig {
    /// The configuration `vm.create` sends: the given CPUs, memory, disks,
    /// network interfaces and vsock device, the kernel and its command line
    /// as the payload, the serial port on the process's TTY (writing to
    /// `serial_log_path` when given) and the console off.
    pub fn for_create(
        cpus: CpusConfig,
        memory: MemoryConfig,
        kernel: KernelConfig,
        disks: Vec<DiskConfig>,
        net: Vec<NetConfig>,
        serial_log_path: Option<String>,
        vsock: Option<VsockConfig>,
    ) -> (r: Self)
        ensures
            r.cpus == Some(cpus),
            r.memory == Some(memory),
            r.payload matches Some(p) && p.kernel == Some(kernel.path) && p.cmdline == kernel.cmdline,
            r.disks == Some(disks),
            r.net == Some(net),
            r.serial matches Some(sc) && sc.file == serial_log_path && (sc.mode matches Some(m)
                && m@ == "Tty"@),
            r.console matches Some(c) && c.mode@ == "Off"@,
            r.vsock == vsock,
    {
        CloudHypervisorVmConfig {
            cpus: Some(cpus),
            memory: Some(memory),
            payload: Some(PayloadConfig { kernel: Some(kernel.path), cmdline: kernel.cmdline }),
            disks: Some(disks),
            net: Some(net),
            serial: Some(SerialConfig { file: serial_log_path, mode: Some(string_of("Tty")) }),
            console: Some(ConsoleConfig { mode: string_of("Off") }),
            vsock,
        }
    }
}

/// What a new VM is created with, from its process configuration: all
/// vCPUs at boot (and no more to hot-plug), the memory in bytes, the kernel
/// at its host path, the root drive's device node in the working directory
/// (at `vm_root_drive_path`), the TAP device with the guest MAC, and the
/// standard vsock device at its host path.
pub struct NewVmDevices {
    pub cpus: CpusConfig,
    pub memory: MemoryConfig,
    pub kernel: KernelConfig,
    pub disks: Vec<DiskConfig>,
    pub net: Vec<NetConfig>,
    pub vsock: VsockConfig,
}

/// `r` is what `vm.create` is called with for a new VM of `config`, whose
/// root drive is at `vm_root_drive_path` inside the jail.
pub open spec fn is_new_vm_devices(
    config: CloudHypervisorProcessConfig,
    vm_root_drive_path: Seq<char>,
    r: NewVmDevices,
) -> bool {
    &&& r.cpus == (CpusConfig { boot_vcpus: config.cpus.boot_vcpus, max_vcpus: Some(config.cpus.boot_vcpus) })
    &&& r.memory.size == mib_to_bytes(config.memory.size_mib as nat)
    &&& r.kernel.path@ == host_path(config.kernel.path@)
    &&& (r.kernel.cmdline matches Some(c) && c@ == config.kernel.cmdline@)
    &&& r.disks@.len() == 1
    &&& r.disks@[0].path@ == pushed_path(jail_root(config.vm_id), vm_root_drive_path)
    &&& r.disks@[0].readonly == Some(config.disk.readonly)
    &&& r.disks@[0].direct is None
    &&& r.disks@[0].id is None
    &&& r.net@.len() == 1
    &&& (r.net@[0].tap matches Some(t) && t@ == config.network.tap@)
    &&& (r.net@[0].mac matches Some(m) && m@ == mac_text(config.network.mac.octets@))
    &&& r.net@[0].num_queues is None
    &&& r.vsock.cid == 3
    &&& r.vsock.socket@ == host_path(PathBufJailerView { vm_id: config.vm_id, inner: "run/vsock.sock"@ })
    &&& (r.vsock.id matches Some(i) && i@ == "vsock0"@)
}

/// Assembles what `vm.create` is called with for a new VM.
pub fn new_vm_devices(config: &CloudHypervisorProcessConfig, vm_root_drive_path: &str) -> (r:
    NewVmDevices)
    ensures
        is_new_vm_devices(*config, vm_root_drive_path@, r),
{
    let jail = get_jail_root_by_vm_id(config.vm_id);
    let vsock_config = CloudHypervisorProcessVsockConfig::with_defaults(config.vm_id);
    let disk = DiskConfig {
        path: path_join(jail.as_str(), vm_root_drive_path),
        readonly: Some(config.disk.readonly),
        direct: None,
        id: None,
    };
    let net = NetConfig {
        tap: Some(config.network.tap.clone()),
        mac: Some(config.network.mac.to_string()),
        num_queues: None,
    };
    let disks = vec![disk];
    let nets = vec![net];
    NewVmDevices {
        cpus: CpusConfig { boot_vcpus: config.cpus.boot_vcpus, max_vcpus: Some(config.cpus.boot_vcpus) },
        memory: MemoryConfig::from_mib(config.memory.size_mib),
        kernel: KernelConfig {
            path: config.kernel.path.with_jail_root(),
            cmdline: Some(config.kernel.cmdline.clone()),
        },
        disks,
        net: nets,
        vsock: VsockConfig {
            cid: vsock_config.guest_cid,
            socket: vsock_config.socket_path.with_jail_root(),
            id: Some(string_of("vsock0")),
        },
    }
}

/// The disk ID Cloud Hypervisor gives a drive: it numbers disks itself, so
/// the root drive is `_disk0`; any other ID is used as is.
pub open spec fn ch_disk_id(drive_id: Seq<char>) -> Seq<char> {
    if drive_id == "root"@ {
        "_disk0"@
    } else {
        drive_id
    }
}

/// Maps a drive ID to Cloud Hypervisor's disk ID.
pub fn disk_id_for_drive(drive_id: &str) -> (r: String)
    ensures
        r@ == ch_disk_id(drive_id@),
{
    let chars = crate::text::chars_of(drive_id);
    let root = crate::text::chars_of("root");
    let mut same = chars.len() == root.len();
    let mut i: usize = 0;
    while same && i < chars.len()
        invariant
            same ==> chars@.len() == root@.len(),
            same ==> chars@.take(i as int) == root@.take(i as int),
            !same ==> chars@ != root@,
            i <= chars@.len(),
        decreases chars@.len() - i,
    {
        if chars[i] != root[i] {
            same = false;
        } else {
            assert(chars@.take(i + 1) =~= chars@.take(i as int).push(chars@[i as int]));
            assert(root@.take(i + 1) =~= root@.take(i as int).push(root@[i as int]));
        }
        i = i + 1;
    }
    if same {
        assert(chars@ =~= chars@.take(i as int));
        assert(root@ =~= root@.take(i as int));
        string_of("_disk0")
    } else {
        string_of(drive_id)
    }
}

/// The disk space a snapshot needs, in MiB: the guest memory in whole MiB
/// (as a `u32`, truncating) plus 1 MiB for the state metadata.
pub open spec fn snapshot_size_of(mem_bytes: u64) -> int {
    ((mem_bytes / 1048576) as u32) + 1
}

/// The memory size, or 0 when it is not known.
pub open spec fn bytes_or_zero(mem_bytes: Option<u64>) -> u64 {
    match mem_bytes {
        Some(b) => b,
        None => 0,
    }
}

/// Estimates the disk space required for a snapshot of a VM whose memory
/// size (in bytes, when known) is `mem_bytes`.
pub fn snapshot_size_mib(mem_bytes: Option<u64>) -> (r: u32)
    requires
        ((bytes_or_zero(mem_bytes) / 1048576) as u32) < u32::MAX,
    ensures
        r == snapshot_size_of(bytes_or_zero(mem_bytes)),
{
    let bytes = match mem_bytes {
        Some(b) => b,
        None => 0,
    };
    (bytes / 1048576) as u32 + 1
}

/// Where a snapshot is made and archived.
pub struct ChSnapshotPlan {
    /// The directory inside the VM's working directory that Cloud
    /// Hypervisor writes the snapshot to.
    pub snapshot_dir: String,
    /// The `file://` URL of that directory, for `vm.snapshot`.
    pub destination_url: String,
    /// The name of the tar archive.
    pub archive_name: String,
    /// The path of the archive in the snapshot directory.
    pub archive_path: String,
}

/// Plans a snapshot `snapshot_id` of the VM whose working directory is
/// `jail_root`: it is written to `snapshot-{id}` there and archived as
/// `{id}.ch_snapshot.tar` in `snapshot_dir`.
pub fn plan_snapshot(jail_root: &str, snapshot_dir: &str, snapshot_id: &str) -> (r: ChSnapshotPlan)
    ensures
        r.snapshot_dir@ == pushed_path(jail_root@, "snapshot-"@ + snapshot_id@),
        r.destination_url@ == "file://"@ + r.snapshot_dir@,
        r.archive_name@ == snapshot_id@ + ".ch_snapshot.tar"@,
        r.archive_path@ == pushed_path(snapshot_dir@, r.archive_name@),
{
    let mut dir_name: Vec<char> = Vec::new();
    push_str(&mut dir_name, "snapshot-");
    push_str(&mut dir_name, snapshot_id);
    let dir_name = string_from_chars(dir_name);
    let ch_snapshot_dir = path_join(jail_root, dir_name.as_str());
    let mut url: Vec<char> = Vec::new();
    push_str(&mut url, "file://");
    push_str(&mut url, ch_snapshot_dir.as_str());
    let mut archive: Vec<char> = Vec::new();
    push_str(&mut archive, snapshot_id);
    push_str(&mut archive, ".ch_snapshot.tar");
    let archive_name = string_from_chars(archive);
    let archive_path = path_join(snapshot_dir, archive_name.as_str());
    ChSnapshotPlan {
        snapshot_dir: ch_snapshot_dir,
        destination_url: string_from_chars(url),
        archive_name,
        archive_path,
    }
}

/// Where the files of a VM restored from a Cloud Hypervisor snapshot go.
pub struct ChRestorePlan {
    /// Where the root drive's device node is copied in the working
    /// directory.
    pub drive_node_path: String,
    /// The kernel in the host's kernel directory.
    pub kernel_source: String,
    /// Where the kernel is copied: `kernels/{kernel_name}` in the working
    /// directory.
    pub kernel_dest: String,
    /// Where the snapshot archive is extracted: `snapshot-{id}` in the
    /// working directory.
    pub restore_dir: String,
    /// The vsock socket: `run/vsock.sock` in the working directory.
    pub vsock_socket_path: String,
    /// The argument of `vm.restore`: the restore directory as a `file://`
    /// URL, without prefaulting memory.
    pub restore_config: VmRestoreConfig,
}

/// Plans the restore of VM `vm_id` from snapshot `snapshot_id`.
pub fn plan_restore(
    vm_id: u128,
    vm_root_drive_path: &str,
    kernel_dir: &str,
    kernel_name: &str,
    snapshot_id: &str,
) -> (r: ChRestorePlan)
    ensures
        r.drive_node_path@ == pushed_path(jail_root(vm_id), vm_root_drive_path@),
        r.kernel_source@ == pushed_path(kernel_dir@, kernel_name@),
        r.kernel_dest@ == pushed_path(pushed_path(jail_root(vm_id), "kernels"@), kernel_name@),
        r.restore_dir@ == pushed_path(jail_root(vm_id), "snapshot-"@ + snapshot_id@),
        r.vsock_socket_path@ == pushed_path(jail_root(vm_id), "run/vsock.sock"@),
        r.restore_config.source_url@ == "file://"@ + r.restore_dir@,
        r.restore_config.prefault == Some(false),
{
    let jail = get_jail_root_by_vm_id(vm_id);
    let kernels = path_join(jail.as_str(), "kernels");
    let mut dir_name: Vec<char> = Vec::new();
    push_str(&mut dir_name, "snapshot-");
    push_str(&mut dir_name, snapshot_id);
    let dir_name = string_from_chars(dir_name);
    let restore_dir = path_join(jail.as_str(), dir_name.as_str());
    let mut url: Vec<char> = Vec::new();
    push_str(&mut url, "file://");
    push_str(&mut url, restore_dir.as_str());
    ChRestorePlan {
        drive_node_path: path_join(jail.as_str(), vm_root_drive_path),
        kernel_source: path_join(kernel_dir, kernel_name),
        kernel_dest: path_join(kernels.as_str(), kernel_name),
        restore_dir,
        vsock_socket_path: path_join(jail.as_str(), "run/vsock.sock"),
        restore_config: VmRestoreConfig { source_url: string_from_chars(url), prefault: Some(false) },
    }
}

/// The host path of a drive given relative to the VM's working directory
/// (an absolute path is taken without its root).
pub open spec fn drive_host_path(jail_root: Seq<char>, jail_relative: Seq<char>) -> Seq<char> {
    pushed_path(
        jail_root,
        if is_absolute_path(jail_relative) {
            root_stripped(jail_relative)
        } else {
            jail_relative
        },
    )
}

/// The resize notification for a drive: its host path (whose new size is to
/// be read), and the disk ID to send it under.
pub fn drive_resize_target(jail_root: &str, drive_id: &str, jail_relative: &str) -> (r: (String, String))
    ensures
        r.0@ == drive_host_path(jail_root@, jail_relative@),
        r.1@ == ch_disk_id(drive_id@),
{
    let host_path = if is_absolute(jail_relative) {
        let stripped = strip_root(jail_relative);
        path_join(jail_root, stripped.as_str())
    } else {
        path_join(jail_root, jail_relative)
    };
    (host_path, disk_id_for_drive(drive_id))
}

} // verus!
