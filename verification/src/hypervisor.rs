//! What the host keeps per hypervisor: which one runs the VMs, where a VM's
//! vsock socket is, where snapshot files of commits and of sleeping VMs go,
//! and how much room a snapshot needs.

use crate::cloud_hypervisor;
use crate::firecracker;
use crate::paths::{path_join, pushed_path};
use crate::text::{push_str, string_from_chars};
use crate::vm_id::{uuid_text, uuid_to_string};
use crate::firecracker::string_of;
use crate::vm_manager::{check_vm_reservation, reservation_verdict, VmAllocationError, VmReservation};
use vstd::prelude::*;

verus! {

/// The hypervisor that runs the VMs of a host.
#[derive(Debug, Clone, Copy, PartialEq, Eq)]
pub enum HypervisorType {
    Firecracker,
    CloudHypervisor,
}

/// The host path of a VM's vsock socket.
pub open spec fn vsock_path_of(vm_id: u128, hypervisor_type: HypervisorType) -> Seq<char> {
    match hypervisor_type {
        HypervisorType::Firecracker => firecracker::host_path(
            firecracker::PathBufJailerView { vm_id, inner: "/run/vsock.sock"@ },
        ),
        HypervisorType::CloudHypervisor => cloud_hypervisor::host_path(
            cloud_hypervisor::PathBufJailerView { vm_id, inner: "run/vsock.sock"@ },
        ),
    }
}

/// Resolves the host-side vsock socket path of a VM, for the hypervisor
/// that runs it.
pub fn vsock_socket_path(vm_id: u128, hypervisor_type: HypervisorType) -> (r: String)
    ensures
        r@ == vsock_path_of(vm_id, hypervisor_type),
{
    match hypervisor_type {
        HypervisorType::Firecracker => {
            firecracker::FirecrackerProcessVsockConfig::with_defaults(vm_id).uds_path.with_jail_root()
        },
        HypervisorType::CloudHypervisor => {
            cloud_hypervisor::CloudHypervisorProcessVsockConfig::with_defaults(
                vm_id,
            ).socket_path.with_jail_root()
        },
    }
}

/// Under Cloud Hypervisor, distinct VMs have distinct vsock sockets.
pub proof fn lemma_ch_vsock_paths_distinct(a: u128, b: u128)
    requires
        vsock_path_of(a, HypervisorType::CloudHypervisor) == vsock_path_of(
            b,
            HypervisorType::CloudHypervisor,
        ),
    ensures
        a == b,
{
    reveal_strlit("run/vsock.sock");
    cloud_hypervisor::lemma_working_dirs_disjoint(
        cloud_hypervisor::PathBufJailerView { vm_id: a, inner: "run/vsock.sock"@ },
        cloud_hypervisor::PathBufJailerView { vm_id: b, inner: "run/vsock.sock"@ },
    );
}

/// `id` followed by `suffix`, joined onto `dir`.
pub open spec fn file_in(dir: Seq<char>, id: Seq<char>, suffix: Seq<char>) -> Seq<char> {
    pushed_path(dir, id + suffix)
}

fn file_path(dir: &str, id: &str, suffix: &str) -> (r: String)
    ensures
        r@ == file_in(dir@, id@, suffix@),
{
    let mut name: Vec<char> = Vec::new();
    push_str(&mut name, id);
    push_str(&mut name, suffix);
    let name = string_from_chars(name);
    path_join(dir, name.as_str())
}

/// Where the memory and state files of a Firecracker commit are kept in the
/// snapshot directory.
#[derive(Debug)]
pub struct VmFirecrackerProcessCommitFilepaths {
    pub mem_file_path: String,
    pub state_file_path: String,
}

impl VmFirecrackerProcessCommitFilepaths {
    /// The memory and state file paths of commit `commit_id`:
    /// `{commit_id}.memory` and `{commit_id}.state` in the snapshot directory.
    pub fn from_commit_id(snapshot_dir: &str, commit_id: u128) -> (r: Self)
        ensures
            r.mem_file_path@ == file_in(snapshot_dir@, uuid_text(commit_id), ".memory"@),
            r.state_file_path@ == file_in(snapshot_dir@, uuid_text(commit_id), ".state"@),
    {
        let id = uuid_to_string(commit_id);
        VmFirecrackerProcessCommitFilepaths {
            mem_file_path: file_path(snapshot_dir, id.as_str(), ".memory"),
            state_file_path: file_path(snapshot_dir, id.as_str(), ".state"),
        }
    }
}

/// Where the snapshot archive of a Cloud Hypervisor commit is kept.
#[derive(Debug)]
pub struct VmCloudHypervisorProcessCommitFilepaths {
    pub snapshot_tar_path: String,
}

impl VmCloudHypervisorProcessCommitFilepaths {
    /// The archive path of commit `commit_id`: `{commit_id}.ch_snapshot.tar`
    /// in the snapshot directory.
    pub fn from_commit_id(snapshot_dir: &str, commit_id: &str) -> (r: Self)
        ensures
            r.snapshot_tar_path@ == file_in(snapshot_dir@, commit_id@, ".ch_snapshot.tar"@),
    {
        VmCloudHypervisorProcessCommitFilepaths {
            snapshot_tar_path: file_path(snapshot_dir, commit_id, ".ch_snapshot.tar"),
        }
    }
}

/// Where the memory and state files of a sleeping Firecracker VM are kept.
#[derive(Debug)]
pub struct VmFirecrackerProcessSleepSnapshotFilepaths {
    pub mem_file_path: String,
    pub state_file_path: String,
}

impl VmFirecrackerProcessSleepSnapshotFilepaths {
    /// The memory and state file paths of sleep snapshot `snapshot_id`.
    pub fn from_snapshot_id(snapshot_dir: &str, snapshot_id: &str) -> (r: Self)
        ensures
            r.mem_file_path@ == file_in(snapshot_dir@, snapshot_id@, ".memory"@),
            r.state_file_path@ == file_in(snapshot_dir@, snapshot_id@, ".state"@),
    {
        VmFirecrackerProcessSleepSnapshotFilepaths {
            mem_file_path: file_path(snapshot_dir, snapshot_id, ".memory"),
            state_file_path: file_path(snapshot_dir, snapshot_id, ".state"),
        }
    }
}

/// Where the snapshot archive of a sleeping Cloud Hypervisor VM is kept.
#[derive(Debug)]
pub struct VmCloudHypervisorProcessSleepSnapshotFilepaths {
    pub snapshot_tar_path: String,
}

impl VmCloudHypervisorProcessSleepSnapshotFilepaths {
    /// The archive path of a sleeping VM: `{vm_id}.ch_snapshot.tar` in the
    /// snapshot directory.
    pub fn from_vm_id(snapshot_dir: &str, vm_id: &str) -> (r: Self)
        ensures
            r.snapshot_tar_path@ == file_in(snapshot_dir@, vm_id@, ".ch_snapshot.tar"@),
    {
        VmCloudHypervisorProcessSleepSnapshotFilepaths {
            snapshot_tar_path: file_path(snapshot_dir, vm_id, ".ch_snapshot.tar"),
        }
    }
}

/// The size of a Firecracker snapshot's state file, in MiB.
pub const STATE_FILE_SIZE_MIB: u32 = 1;

/// The disk space a Firecracker snapshot needs, in MiB: the guest memory
/// plus the state file.
pub fn firecracker_snapshot_size_mib(mem_size_mib: u32) -> (r: u32)
    requires
        mem_size_mib + STATE_FILE_SIZE_MIB <= u32::MAX,
    ensures
        r == mem_size_mib + STATE_FILE_SIZE_MIB,
{
    mem_size_mib + STATE_FILE_SIZE_MIB
}

/// What a commit records of a Firecracker process (nothing yet).
#[derive(Debug, Clone, Copy, PartialEq, Eq)]
pub struct VmFirecrackerProcessCommitMetadata {}

/// What a commit records of a Cloud Hypervisor process (nothing yet).
#[derive(Debug, Clone, Copy, PartialEq, Eq)]
pub struct VmCloudHypervisorProcessCommitMetadata {}

/// What a commit records of the VM's process, by hypervisor.
#[derive(Debug, Clone, Copy, PartialEq, Eq)]
pub enum VmProcessCommitMetadata {
    Firecracker(VmFirecrackerProcessCommitMetadata),
    CloudHypervisor(VmCloudHypervisorProcessCommitMetadata),
}

impl VmProcessCommitMetadata {
    /// The process metadata of a commit made by the given hypervisor.
    pub fn for_hypervisor(hypervisor_type: HypervisorType) -> (r: Self)
        ensures
            hypervisor_type == HypervisorType::Firecracker <==> r is Firecracker,
    {
        match hypervisor_type {
            HypervisorType::Firecracker => VmProcessCommitMetadata::Firecracker(
                VmFirecrackerProcessCommitMetadata {},
            ),
            HypervisorType::CloudHypervisor => VmProcessCommitMetadata::CloudHypervisor(
                VmCloudHypervisorProcessCommitMetadata {},
            ),
        }
    }

    /// The hypervisor the commit was made by.
    pub fn hypervisor_type(&self) -> (r: HypervisorType)
        ensures
            r == HypervisorType::Firecracker <==> self is Firecracker,
    {
        match self {
            VmProcessCommitMetadata::Firecracker(_) => HypervisorType::Firecracker,
            VmProcessCommitMetadata::CloudHypervisor(_) => HypervisorType::CloudHypervisor,
        }
    }
}

/// A VM's configuration as a commit stores it.
#[derive(Debug, Clone)]
pub struct VmConfigCommit {
    pub kernel_name: String,
    pub base_image: String,
    pub vcpu_count: u32,
    pub mem_size_mib: u32,
    pub fs_size_mib: u32,
    pub ssh_public_key: String,
    pub ssh_private_key: String,
}

/// A VM's configuration; `K` is the host's type of SSH keypair.
#[derive(Debug, Clone)]
pub struct VmConfig<K> {
    pub kernel_name: String,
    pub base_image: String,
    pub vcpu_count: u32,
    pub mem_size_mib: u32,
    pub fs_size_mib: u32,
    pub ssh_keypair: K,
    pub hypervisor_type: HypervisorType,
}

impl VmConfigCommit {
    /// Checks the reservation for a VM created from this commit: with the
    /// commit's vCPU count, memory and disk sizes.
    pub fn check_reservation(
        &self,
        vm_count_current: u64,
        vm_count_max: u64,
        reservation: &VmReservation,
    ) -> (r: Result<(), VmAllocationError>)
        ensures
            r == reservation_verdict(
                vm_count_current,
                vm_count_max,
                *reservation,
                self.vcpu_count,
                self.mem_size_mib,
                self.fs_size_mib,
            ),
    {
        check_vm_reservation(
            vm_count_current,
            vm_count_max,
            reservation,
            self.vcpu_count,
            self.mem_size_mib,
            self.fs_size_mib,
        )
    }

    /// The configuration of a VM created from this commit: the commit's
    /// kernel, image and sizes, run by `hypervisor_type`, with the freshly
    /// generated `ssh_keypair` in place of the committed one.
    pub fn new_vm_config<K>(&self, ssh_keypair: K, hypervisor_type: HypervisorType) -> (r: VmConfig<K>)
        ensures
            r.kernel_name@ == self.kernel_name@,
            r.base_image@ == self.base_image@,
            r.vcpu_count == self.vcpu_count,
            r.mem_size_mib == self.mem_size_mib,
            r.fs_size_mib == self.fs_size_mib,
            r.ssh_keypair == ssh_keypair,
            r.hypervisor_type == hypervisor_type,
    {
        VmConfig {
            kernel_name: string_of(self.kernel_name.as_str()),
            base_image: string_of(self.base_image.as_str()),
            vcpu_count: self.vcpu_count,
            mem_size_mib: self.mem_size_mib,
            fs_size_mib: self.fs_size_mib,
            ssh_keypair,
            hypervisor_type,
        }
    }
}

/// The directories of the host's data directory.
#[derive(Debug)]
pub struct DataDir {
    /// Monitoring logs.
    pub monitoring_log_dir: String,
    /// Standard output and error logs of VM processes.
    pub process_log_dir: String,
    /// Kernels.
    pub kernel_dir: String,
    /// Commits and snapshots.
    pub commit_dir: String,
}

impl DataDir {
    /// The standard output and standard error log paths of a VM's process:
    /// `{vm_id}.stdout.log` and `{vm_id}.stderr.log` in the process log
    /// directory.
    pub fn process_log_paths(&self, vm_id: u128) -> (r: (String, String))
        ensures
            r.0@ == file_in(self.process_log_dir@, uuid_text(vm_id), ".stdout.log"@),
            r.1@ == file_in(self.process_log_dir@, uuid_text(vm_id), ".stderr.log"@),
    {
        let id = uuid_to_string(vm_id);
        (
            file_path(self.process_log_dir.as_str(), id.as_str(), ".stdout.log"),
            file_path(self.process_log_dir.as_str(), id.as_str(), ".stderr.log"),
        )
    }
}

} // verus!
