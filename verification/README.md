# chelsea_lib

Host-side logic for running Firecracker and Cloud Hypervisor micro-VMs,
verified with Verus.

- `src/` is the verified library: address planning for VM networks, the
  names of namespaces, veth pairs and TAP devices, NAT rule building and
  recognition, resource reservation checks, jail path layout, kernel command
  lines, hypervisor API configurations, snapshot-cache bookkeeping (pinning,
  eviction, coalesced downloads), boot tracking, the files written into base
  images, and the messages of every error. Each public function states its
  result exactly in its `ensures`; properties that span calls are public
  proof functions.
- The VM lifecycle operations are state machines in `src/` that the host
  drives: it performs each action the machine hands out and reports the
  outcome back. `lifecycle` holds the rollback discipline shared by creating
  a VM, creating one from a commit, waking a sleeping one, rebooting one,
  restoring a Cloud Hypervisor process, building a VM network and making a
  network slot ready (every registered cleanup is handed out, newest first,
  before the failed step's error is reported); after a VM's creation or
  reboot, a `BootWatch` holds those cleanups until the VM has booted.
  `disk_resize`, `vm_snapshot`
  (sleep and commit), `ch_spawn` and `fc_spawn` (starting a hypervisor
  process), `vm_delete`, `cache_eviction` (making room in the snapshot cache),
  `download` (coalesced fetches of snapshot files), `net_init` (the batch of
  SSH rules at startup), the WireGuard setup in `wireguard`, the cgroup setup
  and the process stop are machines of their own.
- `app/` is the unverified host side: filesystem, cgroup and signal I/O,
  nftables, the boot-result channel, the JSON forms of the hypervisor API
  types, and conversions from the `ipnet`, `macaddr`, `uuid` and
  `serde_json` types. The calls into the VM, volume and record stores and
  the orchestrator (PostgreSQL, Ceph, S3, the in-guest agent, the
  WireGuard kernel API) are not part of this crate: their crates are not
  available here, so `app/` drives only the network and cgroup machines.
- `tests/` runs the library on concrete values.
