use chelsea_lib::network_names::{
    ipv4_to_mac, ipv4_to_string, netns_name_from_host_addr, veth_host_name_from_host_addr,
    veth_names_from_addr_pair, veth_vm_name_from_vm_addr, vm_addr_from_host_addr,
};
use chelsea_lib::vm_network::{VmNetwork, VmNetworkRecord, GUEST_ADDR_V4};

fn ip(a: u8, b: u8, c: u8, d: u8) -> u32 {
    (a as u32) << 24 | (b as u32) << 16 | (c as u32) << 8 | d as u32
}

#[test]
fn vm_addr_is_upper_address_of_pair() {
    assert_eq!(vm_addr_from_host_addr(ip(10, 0, 0, 4)), Ok(ip(10, 0, 0, 5)));
    assert_eq!(vm_addr_from_host_addr(ip(10, 0, 0, 254)), Ok(ip(10, 0, 0, 255)));
    let e = vm_addr_from_host_addr(ip(10, 0, 0, 5)).unwrap_err();
    assert_eq!(e.host_addr, ip(10, 0, 0, 5));
    assert_eq!(
        e.to_string(),
        "host_addr 10.0.0.5 must be the lower address in a point-to-point (RFC 3021) subnet."
    );
}

#[test]
fn netns_name_lists_octets() {
    assert_eq!(netns_name_from_host_addr(ip(192, 168, 0, 10)), "vm_192_168_0_10");
    assert_eq!(netns_name_from_host_addr(ip(10, 0, 0, 0)), "vm_10_0_0_0");
}

#[test]
fn veth_names_are_padded_and_fifteen_long() {
    assert_eq!(veth_host_name_from_host_addr(ip(10, 0, 1, 2)), "vh_010000001002");
    assert_eq!(veth_vm_name_from_vm_addr(ip(192, 168, 255, 3)), "vv_192168255003");
    let (h, v) = veth_names_from_addr_pair(ip(1, 2, 3, 4), ip(1, 2, 3, 5));
    assert_eq!(h, "vh_001002003004");
    assert_eq!(v, "vv_001002003005");
    assert_eq!(h.len(), 15);
    assert_eq!(v.len(), 15);
}

#[test]
fn mac_is_derived_from_address() {
    assert_eq!(ipv4_to_mac(ip(192, 168, 1, 2)).octets, [6, 0, 192, 168, 1, 2]);
    assert_eq!(ipv4_to_string(ip(192, 168, 1, 2)), "192.168.1.2");
    assert_eq!(ipv4_to_string(u32::MAX), "255.255.255.255");
}

#[test]
fn vm_network_plan_names_everything() {
    let plan = VmNetwork::plan(ip(10, 20, 0, 6), 2300).unwrap();
    assert_eq!(plan.vm_addr, ip(10, 20, 0, 7));
    assert_eq!(plan.netns_name, "vm_10_20_0_6");
    assert_eq!(plan.veth_host_name, "vh_010020000006");
    assert_eq!(plan.veth_vm_name, "vv_010020000007");
    assert_eq!(plan.ssh_port, 2300);
}

#[test]
fn vm_network_plan_refuses_upper_address() {
    let e = VmNetwork::plan(ip(10, 20, 0, 7), 2300).unwrap_err();
    assert_eq!(
        e.to_string(),
        "Invalid input params: Host IP 10.20.0.7/31 must be the lower address in a point-to-point (RFC 3021) subnet"
    );
}

#[test]
fn vm_network_record_round_trip() {
    let record = VmNetworkRecord {
        host_addr: ip(10, 0, 0, 2),
        vm_addr: ip(10, 0, 0, 3),
        netns_name: "vm_10_0_0_2".to_string(),
        ssh_port: 2201,
        wg: None,
        reserved_until: "2024-01-01T00:00:00Z".to_string(),
    };
    let network = VmNetwork::from_record(record);
    assert_eq!(network.tap_name(), "tap0");
    assert_eq!(network.guest_mac().octets, [6, 0, 192, 168, 1, 2]);
    assert_eq!(GUEST_ADDR_V4, ip(192, 168, 1, 2));
    let back = network.to_record("later".to_string());
    assert_eq!(back.host_addr, ip(10, 0, 0, 2));
    assert_eq!(back.vm_addr, ip(10, 0, 0, 3));
    assert_eq!(back.netns_name, "vm_10_0_0_2");
    assert_eq!(back.ssh_port, 2201);
    assert_eq!(back.reserved_until, "later");
}
