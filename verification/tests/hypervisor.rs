use chelsea_lib::hypervisor::{
    firecracker_snapshot_size_mib, DataDir, HypervisorType, VmCloudHypervisorProcessCommitFilepaths,
    VmCloudHypervisorProcessSleepSnapshotFilepaths, VmFirecrackerProcessCommitFilepaths,
    VmFirecrackerProcessSleepSnapshotFilepaths, VmProcessCommitMetadata, STATE_FILE_SIZE_MIB,
};

const COMMIT_ID: &str = "550e8400-e29b-41d4-a716-446655440000";

fn commit_id() -> u128 {
    uuid::Uuid::parse_str(COMMIT_ID).unwrap().as_u128()
}

#[test]
fn firecracker_commit_filepaths_use_commit_id() {
    let paths = VmFirecrackerProcessCommitFilepaths::from_commit_id("/var/lib/chelsea/commits", commit_id());
    assert_eq!(
        paths.mem_file_path,
        "/var/lib/chelsea/commits/550e8400-e29b-41d4-a716-446655440000.memory"
    );
    assert_eq!(
        paths.state_file_path,
        "/var/lib/chelsea/commits/550e8400-e29b-41d4-a716-446655440000.state"
    );
}

#[test]
fn cloud_hypervisor_commit_filepath_is_tar_archive() {
    let paths = VmCloudHypervisorProcessCommitFilepaths::from_commit_id("/snapshots/", "abc");
    assert_eq!(paths.snapshot_tar_path, "/snapshots/abc.ch_snapshot.tar");
}

#[test]
fn sleep_snapshot_filepaths() {
    let fc = VmFirecrackerProcessSleepSnapshotFilepaths::from_snapshot_id("/snap", "s1");
    assert_eq!(fc.mem_file_path, "/snap/s1.memory");
    assert_eq!(fc.state_file_path, "/snap/s1.state");
    let ch = VmCloudHypervisorProcessSleepSnapshotFilepaths::from_vm_id("/snap", "vm9");
    assert_eq!(ch.snapshot_tar_path, "/snap/vm9.ch_snapshot.tar");
}

#[test]
fn firecracker_snapshot_size_adds_state_file() {
    assert_eq!(STATE_FILE_SIZE_MIB, 1);
    assert_eq!(firecracker_snapshot_size_mib(2048), 2049);
    assert_eq!(firecracker_snapshot_size_mib(0), 1);
}

#[test]
fn commit_metadata_records_hypervisor() {
    let fc = VmProcessCommitMetadata::for_hypervisor(HypervisorType::Firecracker);
    assert_eq!(fc.hypervisor_type(), HypervisorType::Firecracker);
    let ch = VmProcessCommitMetadata::for_hypervisor(HypervisorType::CloudHypervisor);
    assert_eq!(ch.hypervisor_type(), HypervisorType::CloudHypervisor);
    assert_ne!(fc, ch);
}

#[test]
fn process_log_paths_use_vm_id() {
    let data_dir = DataDir {
        monitoring_log_dir: "/data/monitoring".to_string(),
        process_log_dir: "/data/process_logs".to_string(),
        kernel_dir: "/data/kernels".to_string(),
        commit_dir: "/data/commits".to_string(),
    };
    let (stdout, stderr) = data_dir.process_log_paths(commit_id());
    assert_eq!(
        stdout,
        "/data/process_logs/550e8400-e29b-41d4-a716-446655440000.stdout.log"
    );
    assert_eq!(
        stderr,
        "/data/process_logs/550e8400-e29b-41d4-a716-446655440000.stderr.log"
    );
}
