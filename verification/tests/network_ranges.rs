use chelsea_lib::ipv4::Ipv4Net;
use chelsea_lib::network_ranges::NetworkRanges;

fn ip(a: u8, b: u8, c: u8, d: u8) -> u32 {
    (a as u32) << 24 | (b as u32) << 16 | (c as u32) << 8 | d as u32
}

fn net(a: u8, b: u8, c: u8, d: u8, prefix_len: u8) -> Ipv4Net {
    Ipv4Net::new(ip(a, b, c, d), prefix_len).unwrap()
}

#[test]
fn test_basic_network_ranges_creation() {
    let vm_subnet = net(192, 168, 1, 0, 28); // 16 IPs, 8 pairs
    let ssh_range = 2222..2230; // 8 ports

    let ranges = NetworkRanges::new(vm_subnet, ssh_range).unwrap();

    assert_eq!(ranges.vm_subnet.prefix_len(), 28);
    assert_eq!(ranges.ssh_port_range.len(), 8);
}

#[test]
fn test_minimize_by_ip_range() {
    let vm_subnet = net(192, 168, 1, 0, 30); // 4 IPs, 2 pairs
    let ssh_range = 2222..2232; // 10 ports

    let ranges = NetworkRanges::new(vm_subnet, ssh_range).unwrap();

    assert_eq!(ranges.vm_subnet.prefix_len(), 30);
    assert_eq!(ranges.ssh_port_range.len(), 2);
}

#[test]
fn test_minimize_by_port_range() {
    let vm_subnet = net(192, 168, 1, 0, 26); // 64 IPs, 32 pairs
    let ssh_range = 2222..2226; // 4 ports

    let ranges = NetworkRanges::new(vm_subnet, ssh_range).unwrap();

    assert_eq!(ranges.vm_subnet.prefix_len(), 29);
    assert_eq!(ranges.ssh_port_range.len(), 4);
}

#[test]
fn test_single_pair() {
    let vm_subnet = net(192, 168, 1, 0, 31); // 2 IPs, 1 pair
    let ssh_range = 2222..2223; // 1 port

    let ranges = NetworkRanges::new(vm_subnet, ssh_range).unwrap();

    assert_eq!(ranges.vm_subnet.prefix_len(), 31);
    assert_eq!(ranges.ssh_port_range.len(), 1);
}

#[test]
fn test_empty_port_range_fails() {
    let vm_subnet = net(192, 168, 1, 0, 28);
    let ssh_range = 2222..2222; // Empty range

    let result = NetworkRanges::new(vm_subnet, ssh_range);
    assert!(result.unwrap_err().to_string().contains("size 0"));
}

#[test]
fn test_single_ip_subnet_fails() {
    let vm_subnet = net(192, 168, 1, 1, 32); // 1 IP, 0 pairs
    let ssh_range = 2222..2230;

    let result = NetworkRanges::new(vm_subnet, ssh_range);
    assert!(result.unwrap_err().to_string().contains("size 0"));
}

#[test]
fn test_iterator_basic() {
    let vm_subnet = net(192, 168, 1, 0, 30); // 4 IPs, 2 pairs
    let ssh_range = 2222..2224; // 2 ports

    let ranges = NetworkRanges::new(vm_subnet, ssh_range).unwrap();
    let mut iter = ranges.iter();

    let ((host1, vm1), port1) = iter.next().unwrap();
    assert_eq!(host1.addr(), ip(192, 168, 1, 0));
    assert_eq!(vm1.addr(), ip(192, 168, 1, 1));
    assert_eq!(host1.prefix_len(), 31);
    assert_eq!(vm1.prefix_len(), 31);
    assert_eq!(port1, 2222);

    let ((host2, vm2), port2) = iter.next().unwrap();
    assert_eq!(host2.addr(), ip(192, 168, 1, 2));
    assert_eq!(vm2.addr(), ip(192, 168, 1, 3));
    assert_eq!(port2, 2223);

    assert!(iter.next().is_none());
}

#[test]
fn test_iterator_collects_correctly() {
    let vm_subnet = net(10, 0, 0, 0, 29); // 8 IPs, 4 pairs
    let ssh_range = 3000..3004; // 4 ports

    let ranges = NetworkRanges::new(vm_subnet, ssh_range).unwrap();
    let pairs = ranges.pairs();

    assert_eq!(pairs.len(), 4);

    assert_eq!(pairs[0].0 .0.addr(), ip(10, 0, 0, 0));
    assert_eq!(pairs[0].0 .1.addr(), ip(10, 0, 0, 1));
    assert_eq!(pairs[0].1, 3000);

    assert_eq!(pairs[1].0 .0.addr(), ip(10, 0, 0, 2));
    assert_eq!(pairs[1].0 .1.addr(), ip(10, 0, 0, 3));
    assert_eq!(pairs[1].1, 3001);

    assert_eq!(pairs[3].0 .0.addr(), ip(10, 0, 0, 6));
    assert_eq!(pairs[3].0 .1.addr(), ip(10, 0, 0, 7));
    assert_eq!(pairs[3].1, 3003);
}

#[test]
fn test_iterator_empty_ranges() {
    let vm_subnet = net(192, 168, 1, 0, 31); // 2 IPs, 1 pair
    let ssh_range = 2222..2223; // 1 port

    let ranges = NetworkRanges::new(vm_subnet, ssh_range).unwrap();
    let pairs = ranges.pairs();

    assert_eq!(pairs.len(), 1);
    assert_eq!(pairs[0].0 .0.addr(), ip(192, 168, 1, 0));
    assert_eq!(pairs[0].0 .1.addr(), ip(192, 168, 1, 1));
    assert_eq!(pairs[0].1, 2222);
}

#[test]
fn test_power_of_two_alignment() {
    let vm_subnet = net(192, 168, 1, 0, 27); // 32 IPs, 16 pairs
    let ssh_range = 2222..2233; // 11 ports (not power of 2)

    let ranges = NetworkRanges::new(vm_subnet, ssh_range).unwrap();

    assert_eq!(ranges.ssh_port_range.len(), 8);
    assert_eq!(ranges.vm_subnet.prefix_len(), 28);
}

#[test]
fn test_large_ranges() {
    let vm_subnet = net(10, 0, 0, 0, 16); // 65536 IPs, 32768 pairs
    let ssh_range = 1024..2048; // 1024 ports

    let ranges = NetworkRanges::new(vm_subnet, ssh_range).unwrap();

    assert_eq!(ranges.ssh_port_range.len(), 1024);
    assert_eq!(ranges.vm_subnet.prefix_len(), 21);
}

#[test]
fn test_edge_case_port_ranges() {
    let vm_subnet = net(192, 168, 1, 0, 28); // 16 IPs, 8 pairs
    let ssh_range = 65530..65535; // High port numbers

    let ranges = NetworkRanges::new(vm_subnet, ssh_range).unwrap();

    assert_eq!(ranges.ssh_port_range.start, 65530);
    assert_eq!(ranges.ssh_port_range.len(), 4);
}

#[test]
fn test_iterator_handles_boundary_correctly() {
    let vm_subnet = net(192, 168, 1, 254, 31); // Edge of subnet
    let ssh_range = 2222..2223;

    let ranges = NetworkRanges::new(vm_subnet, ssh_range).unwrap();
    let mut iter = ranges.iter();

    let ((host, vm), port) = iter.next().unwrap();
    assert_eq!(host.addr(), ip(192, 168, 1, 254));
    assert_eq!(vm.addr(), ip(192, 168, 1, 255));
    assert_eq!(port, 2222);

    assert!(iter.next().is_none());
}

#[test]
fn minimize_keeps_network_address_of_unaligned_subnet() {
    // 10.0.0.5/29 names the block 10.0.0.0 - 10.0.0.7; the minimized subnet
    // starts at the block's network address.
    let ranges = NetworkRanges::new(net(10, 0, 0, 5, 29), 4000..4002).unwrap();
    assert_eq!(ranges.vm_subnet.addr(), ip(10, 0, 0, 0));
    assert_eq!(ranges.vm_subnet.prefix_len(), 30);
    assert_eq!(ranges.get_ip_pair_count(), 2);
}

#[test]
fn prefix_len_over_32_is_refused() {
    assert!(Ipv4Net::new(ip(10, 0, 0, 0), 33).is_err());
    assert!(Ipv4Net::new(ip(10, 0, 0, 0), 32).is_ok());
}

#[test]
fn network_and_broadcast_of_a_block() {
    let n = net(192, 168, 7, 77, 24);
    assert_eq!(n.network(), ip(192, 168, 7, 0));
    assert_eq!(n.broadcast(), ip(192, 168, 7, 255));
    assert_eq!(n.block_size(), 256);
    let whole = net(1, 2, 3, 4, 0);
    assert_eq!(whole.network(), 0);
    assert_eq!(whole.broadcast(), u32::MAX);
    assert_eq!(whole.block_size(), 1u64 << 32);
}

#[test]
fn pairs_count_equals_pair_count_for_every_minimized_range() {
    for prefix in 24..=31u8 {
        let ranges = NetworkRanges::new(net(172, 16, 0, 0, prefix), 5000..5300).unwrap();
        assert_eq!(ranges.pairs().len(), ranges.get_ip_pair_count());
    }
}
