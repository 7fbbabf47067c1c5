//! Host-side logic for managing Firecracker / Cloud Hypervisor micro-VMs:
//! address planning for VM networks, snapshot-cache bookkeeping, resource
//! reservation checks, jail path layout and the small text formats the host
//! writes into guests.

pub mod ipv4;
pub mod network_ranges;
pub mod text;
pub mod network_names;
pub mod vm_id;
pub mod vm_manager;
pub mod env_file;
pub mod paths;
pub mod kernel_cmdline;
pub mod firecracker;
pub mod cloud_hypervisor;
pub mod process_stop;
pub mod snapshot_cache;
pub mod io_error;
pub mod errors;
pub mod vm_network;
pub mod ready_service;
pub mod wireguard;
pub mod base_image;
pub mod cgroup;
pub mod nat_rules;
pub mod hypervisor;
pub mod teardown;
pub mod snapshot_config;
pub mod net_setup;
pub mod lifecycle;
pub mod disk_resize;
pub mod ch_spawn;
pub mod fc_spawn;
pub mod vm_snapshot;
pub mod cache_eviction;
pub mod download;
pub mod net_init;
pub mod vm_delete;
