//! A VM's network: a point-to-point pair of addresses, a namespace holding
//! the VM end of a veth pair and a TAP device, and an inbound SSH port.

use crate::errors::NewVmNetworkError;
use crate::firecracker::string_of;
use crate::ipv4::{broadcast_of, lemma_block_fits, network_of, Ipv4Net};
use crate::network_names::{
    ipv4_to_mac, ipv4_text, netns_name, netns_name_from_host_addr, octet0, octet1, octet2, octet3,
    push_ipv4, veth_host_name, veth_host_name_from_host_addr, veth_vm_name,
    veth_vm_name_from_vm_addr, MacAddr,
};
use crate::text::{push_str, string_from_chars};
use vstd::prelude::*;

verus! {

/// The name of the TAP device in every VM's namespace. Every VM sees the same
/// addresses (snapshots depend on it); base images depend on these values.
pub open spec fn tap_name_text() -> Seq<char> {
    "tap0"@
}

/// The host side of the TAP network, `192.168.1.1/30`.
pub const TAP_NET_V4_ADDR: u32 = 0xC0A80101;

/// The prefix length of the TAP network.
pub const TAP_NET_V4_PREFIX_LEN: u8 = 30;

/// The guest's address, `192.168.1.2`.
pub const GUEST_ADDR_V4: u32 = 0xC0A80102;

/// The WireGuard configuration of a VM.
#[derive(Debug, PartialEq, Eq)]
pub struct VmWireGuardConfig {
    pub interface_name: String,
    /// The VM's private IPv6 address.
    pub private_ip: u128,
    pub peer_pub_key: String,
    pub private_key: String,
    /// The peer's IPv6 address.
    pub peer_ipv6: u128,
    /// The peer's public IPv4 address.
    pub peer_pub_ip: u32,
    pub wg_port: u16,
}

impl Clone for VmWireGuardConfig {
    fn clone(&self) -> (r: Self)
        ensures
            r == *self,
    {
        VmWireGuardConfig {
            interface_name: self.interface_name.clone(),
            private_ip: self.private_ip,
            peer_pub_key: self.peer_pub_key.clone(),
            private_key: self.private_key.clone(),
            peer_ipv6: self.peer_ipv6,
            peer_pub_ip: self.peer_pub_ip,
            wg_port: self.wg_port,
        }
    }
}

/// A configured network and all related devices handed to a VM.
#[derive(Debug)]
pub struct VmNetwork {
    pub host_addr: u32,
    pub vm_addr: u32,
    pub netns_name: String,
    pub ssh_port: u16,
    /// Set while the network is bound to a VM.
    pub wg: Option<VmWireGuardConfig>,
}

/// A network as the store holds it.
#[derive(Debug)]
pub struct VmNetworkRecord {
    pub host_addr: u32,
    pub vm_addr: u32,
    pub netns_name: String,
    pub ssh_port: u16,
    pub wg: Option<VmWireGuardConfig>,
    /// RFC 3339; a reserved network is free again after this time unless its
    /// VM has been recorded.
    pub reserved_until: String,
}

/// What the host creates for a new network.
#[derive(Debug)]
pub struct VmNetworkPlan {
    pub host_addr: u32,
    pub vm_addr: u32,
    pub netns_name: String,
    pub veth_host_name: String,
    pub veth_vm_name: String,
    pub ssh_port: u16,
}

/// The message refusing a host address that is not the lower address of its
/// `/31`.
pub open spec fn not_lower_text(host_addr: u32) -> Seq<char> {
    "Host IP "@ + ipv4_text(host_addr) + "/31"@
        + " must be the lower address in a point-to-point (RFC 3021) subnet"@
}

impl VmNetwork {
    /// The name of the TAP device.
    pub fn tap_name(&self) -> (r: String)
        ensures
            r@ == tap_name_text(),
    {
        string_of("tap0")
    }

    /// The guest's MAC address, derived from the guest's address.
    pub fn guest_mac(&self) -> (r: MacAddr)
        ensures
            r.octets@ == seq![
                6u8,
                0u8,
                octet0(GUEST_ADDR_V4) as u8,
                octet1(GUEST_ADDR_V4) as u8,
                octet2(GUEST_ADDR_V4) as u8,
                octet3(GUEST_ADDR_V4) as u8,
            ],
    {
        ipv4_to_mac(GUEST_ADDR_V4)
    }

    /// Plans the network whose pair starts at `host_addr`: the VM gets the
    /// upper address of the `/31`, and the namespace and veth ends are named
    /// after the addresses. Refuses a host address that is not the lower
    /// address of its `/31`.
    pub fn plan(host_addr: u32, ssh_port: u16) -> (r: Result<VmNetworkPlan, NewVmNetworkError>)
        ensures
            (network_of(host_addr, 31) == host_addr) <==> r is Ok,
            r matches Ok(p) ==> {
                &&& p.host_addr == host_addr
                &&& p.vm_addr == broadcast_of(host_addr, 31)
                &&& p.vm_addr == host_addr + 1
                &&& p.netns_name@ == netns_name(host_addr)
                &&& p.veth_host_name@ == veth_host_name(host_addr)
                &&& p.veth_vm_name@ == veth_vm_name(p.vm_addr)
                &&& p.ssh_port == ssh_port
            },
            r matches Err(e) ==> e == NewVmNetworkError::InvalidInput(e->InvalidInput_0) && e->InvalidInput_0@
                == not_lower_text(host_addr),
    {
        let host_net = Ipv4Net::new_assert(host_addr, 31);
        proof {
            lemma_block_fits(host_addr, 31);
            vstd::arithmetic::power2::lemma2_to64();
        }
        if host_net.network() != host_addr {
            let mut out: Vec<char> = Vec::new();
            push_str(&mut out, "Host IP ");
            push_ipv4(&mut out, host_addr);
            push_str(&mut out, "/31");
            push_str(&mut out, " must be the lower address in a point-to-point (RFC 3021) subnet");
            return Err(NewVmNetworkError::InvalidInput(string_from_chars(out)));
        }
        let vm_addr = host_net.broadcast();
        Ok(VmNetworkPlan {
            host_addr,
            vm_addr,
            netns_name: netns_name_from_host_addr(host_addr),
            veth_host_name: veth_host_name_from_host_addr(host_addr),
            veth_vm_name: veth_vm_name_from_vm_addr(vm_addr),
            ssh_port,
        })
    }

    /// The network a store record describes.
    pub fn from_record(value: VmNetworkRecord) -> (r: Self)
        ensures
            r.host_addr == value.host_addr,
            r.vm_addr == value.vm_addr,
            r.netns_name == value.netns_name,
            r.ssh_port == value.ssh_port,
            r.wg == value.wg,
    {
        VmNetwork {
            host_addr: value.host_addr,
            vm_addr: value.vm_addr,
            netns_name: value.netns_name,
            ssh_port: value.ssh_port,
            wg: value.wg,
        }
    }

    /// The store record of the network, reserved until `reserved_until`.
    pub fn to_record(&self, reserved_until: String) -> (r: VmNetworkRecord)
        ensures
            r.host_addr == self.host_addr,
            r.vm_addr == self.vm_addr,
            r.netns_name@ == self.netns_name@,
            r.ssh_port == self.ssh_port,
            r.wg == self.wg,
            r.reserved_until == reserved_until,
    {
        VmNetworkRecord {
            host_addr: self.host_addr,
            vm_addr: self.vm_addr,
            netns_name: self.netns_name.clone(),
            ssh_port: self.ssh_port,
            wg: match &self.wg {
                Some(wg) => Some(wg.clone()),
                None => None,
            },
            reserved_until,
        }
    }
}

} // verus!
