use chelsea_lib::ipv4::Ipv4Net;
use chelsea_lib::net_setup::{
    command_failed_message, default_route_command, host_forwarding_commands, netns_del_command,
    packet_forwarding_commands, tolerate_existing, NetAction, NetEvent, NetnsAdd, TapSetup,
    VethSetup,
};

fn words(args: &[&str]) -> Vec<String> {
    args.iter().map(|s| s.to_string()).collect()
}

fn run_args(a: &NetAction) -> Vec<String> {
    match a {
        NetAction::Run(v) | NetAction::RunIgnoringFailure(v) => v.clone(),
        NetAction::Finish(r) => panic!("unexpected finish: {:?}", r),
    }
}

fn ip(a: u8, b: u8, c: u8, d: u8) -> u32 {
    u32::from_be_bytes([a, b, c, d])
}

#[test]
fn run_command_failure_message() {
    let args = words(&["ip", "netns", "add", "vm_10_0_0_2"]);
    assert_eq!(
        command_failed_message(&args, 1, "Cannot create namespace file: File exists\n"),
        "Network Manager command failed. Command: 'ip netns add vm_10_0_0_2'; Exit Code: 1; stderr: Cannot create namespace file: File exists\n"
    );
    assert_eq!(
        command_failed_message(&words(&["true"]), -1, ""),
        "Network Manager command failed. Command: 'true'; Exit Code: -1; stderr: "
    );
}

#[test]
fn netns_add_reuses_an_existing_namespace() {
    let (mut add, first) = NetnsAdd::start("vm_10_0_0_2");
    assert_eq!(run_args(&first), words(&["ip", "netns", "add", "vm_10_0_0_2"]));
    let next = add.step(NetEvent::Failed("stderr: File exists".to_string()));
    assert_eq!(
        run_args(&next),
        words(&["ip", "netns", "exec", "vm_10_0_0_2", "ip", "link", "set", "lo", "up"])
    );
    assert!(matches!(add.step(NetEvent::Succeeded), NetAction::Finish(Ok(()))));
    assert!(add.is_finished());

    let (mut other, _) = NetnsAdd::start("vm_x");
    match other.step(NetEvent::Failed("permission denied".to_string())) {
        NetAction::Finish(Err(m)) => assert_eq!(m, "permission denied"),
        a => panic!("unexpected {:?}", a),
    }
}

#[test]
fn default_route_tolerates_an_existing_route() {
    assert_eq!(
        default_route_command("vm_10_0_0_2", ip(10, 0, 0, 2)),
        words(&["ip", "netns", "exec", "vm_10_0_0_2", "ip", "route", "add", "default", "via", "10.0.0.2"])
    );
    assert_eq!(tolerate_existing(NetEvent::Succeeded), Ok(()));
    assert_eq!(tolerate_existing(NetEvent::Failed("RTNETLINK answers: File exists".to_string())), Ok(()));
    assert_eq!(
        tolerate_existing(NetEvent::Failed("Network is unreachable".to_string())),
        Err("Network is unreachable".to_string())
    );
}

#[test]
fn veth_setup_fresh_pair() {
    let (mut veth, first) = VethSetup::start(ip(10, 0, 0, 2), "ns1").unwrap();
    assert_eq!(
        run_args(&first),
        words(&["ip", "link", "add", "vh_010000000002", "type", "veth", "peer", "name", "vv_010000000003", "netns", "ns1"])
    );
    let a = veth.step(NetEvent::Succeeded);
    assert_eq!(run_args(&a), words(&["ip", "addr", "add", "10.0.0.2/31", "dev", "vh_010000000002"]));
    let a = veth.step(NetEvent::Succeeded);
    assert_eq!(
        run_args(&a),
        words(&["ip", "netns", "exec", "ns1", "ip", "addr", "add", "10.0.0.3/31", "dev", "vv_010000000003"])
    );
    let a = veth.step(NetEvent::Succeeded);
    assert_eq!(run_args(&a), words(&["ip", "link", "set", "vh_010000000002", "up"]));
    let a = veth.step(NetEvent::Succeeded);
    assert_eq!(run_args(&a), words(&["ip", "netns", "exec", "ns1", "ip", "link", "set", "vv_010000000003", "up"]));
    assert!(matches!(veth.step(NetEvent::Succeeded), NetAction::Finish(Ok(()))));
}

#[test]
fn veth_setup_recovers_existing_and_stale_pairs() {
    let (mut veth, _) = VethSetup::start(ip(10, 0, 0, 2), "ns1").unwrap();
    let a = veth.step(NetEvent::Failed("RTNETLINK answers: File exists".to_string()));
    assert_eq!(run_args(&a), words(&["ip", "netns", "exec", "ns1", "ip", "link", "show", "vv_010000000003"]));
    // The peer is there: both ends are flushed, failures ignored.
    let a = veth.step(NetEvent::Succeeded);
    assert!(matches!(&a, NetAction::RunIgnoringFailure(v) if *v == words(&["ip", "addr", "flush", "dev", "vh_010000000002"])));
    let a = veth.step(NetEvent::Failed("ignored".to_string()));
    assert!(matches!(&a, NetAction::RunIgnoringFailure(v) if *v == words(&["ip", "netns", "exec", "ns1", "ip", "addr", "flush", "dev", "vv_010000000003"])));
    let a = veth.step(NetEvent::Succeeded);
    assert_eq!(run_args(&a), words(&["ip", "addr", "add", "10.0.0.2/31", "dev", "vh_010000000002"]));

    // The peer is gone: the host end is deleted and the pair recreated.
    let (mut stale, _) = VethSetup::start(ip(10, 0, 0, 2), "ns1").unwrap();
    stale.step(NetEvent::Failed("File exists".to_string()));
    let a = stale.step(NetEvent::Failed("Device does not exist".to_string()));
    assert_eq!(run_args(&a), words(&["ip", "link", "del", "vh_010000000002"]));
    let a = stale.step(NetEvent::Succeeded);
    assert_eq!(run_args(&a)[2], "add");
    let a = stale.step(NetEvent::Succeeded);
    assert_eq!(run_args(&a), words(&["ip", "addr", "add", "10.0.0.2/31", "dev", "vh_010000000002"]));

    assert!(VethSetup::start(ip(10, 0, 0, 3), "ns1").is_err());
}

#[test]
fn tap_ensure_replaces_an_existing_device() {
    let v4 = Ipv4Net::new(ip(192, 168, 1, 1), 30).unwrap();
    let (mut tap, first) = TapSetup::ensure("tap0", &v4, "fd00:fe11:deed:1337::1/126", "ns1");
    assert_eq!(run_args(&first), words(&["ip", "netns", "exec", "ns1", "ip", "link", "show", "tap0"]));
    let a = tap.step(NetEvent::Succeeded);
    assert!(matches!(&a, NetAction::RunIgnoringFailure(v) if *v == words(&["ip", "netns", "exec", "ns1", "ip", "link", "del", "tap0"])));
    let a = tap.step(NetEvent::Succeeded);
    assert_eq!(run_args(&a), words(&["ip", "netns", "exec", "ns1", "ip", "tuntap", "add", "dev", "tap0", "mode", "tap"]));
    let a = tap.step(NetEvent::Failed("ioctl(TUNSETIFF): Device or resource busy".to_string()));
    assert_eq!(run_args(&a), words(&["ip", "netns", "exec", "ns1", "ip", "addr", "flush", "dev", "tap0"]));
    let a = tap.step(NetEvent::Succeeded);
    assert_eq!(run_args(&a), words(&["ip", "netns", "exec", "ns1", "ip", "addr", "add", "192.168.1.1/30", "dev", "tap0"]));
    let a = tap.step(NetEvent::Succeeded);
    assert_eq!(run_args(&a), words(&["ip", "netns", "exec", "ns1", "ip", "addr", "add", "fd00:fe11:deed:1337::1/126", "dev", "tap0"]));
    let a = tap.step(NetEvent::Succeeded);
    assert_eq!(
        run_args(&a),
        words(&["ip", "netns", "exec", "ns1", "ip", "link", "set", "dev", "tap0", "address", "06:00:C0:A8:01:01"])
    );
    let a = tap.step(NetEvent::Succeeded);
    assert_eq!(run_args(&a), words(&["ip", "netns", "exec", "ns1", "ip", "link", "set", "tap0", "up"]));
    assert!(matches!(tap.step(NetEvent::Succeeded), NetAction::Finish(Ok(()))));
}

#[test]
fn tap_add_fails_on_other_errors() {
    let v4 = Ipv4Net::new(ip(192, 168, 1, 1), 30).unwrap();
    let (mut tap, first) = TapSetup::add("tap0", &v4, "fd00::1/126", "ns1");
    assert_eq!(run_args(&first)[5], "tuntap");
    match tap.step(NetEvent::Failed("Operation not permitted".to_string())) {
        NetAction::Finish(Err(m)) => assert_eq!(m, "Operation not permitted"),
        a => panic!("unexpected {:?}", a),
    }
}

#[test]
fn forwarding_commands() {
    let cmds = packet_forwarding_commands("ns1", "vv_010000000003", ip(192, 168, 1, 2), "fd00:fe11:deed:1337::2");
    assert_eq!(cmds.len(), 8);
    assert_eq!(
        cmds[0],
        words(&["ip", "netns", "exec", "ns1", "iptables", "-t", "nat", "-A", "PREROUTING", "-i", "vv_010000000003", "-j", "DNAT", "--to", "192.168.1.2"])
    );
    assert_eq!(
        cmds[2],
        words(&["ip", "netns", "exec", "ns1", "ip6tables", "-t", "nat", "-A", "PREROUTING", "-i", "vv_010000000003", "-j", "DNAT", "--to-destination", "fd00:fe11:deed:1337::2"])
    );
    assert_eq!(cmds[7], words(&["ip", "netns", "exec", "ns1", "sysctl", "-w", "net.ipv6.conf.all.forwarding=1"]));
    let host = host_forwarding_commands();
    assert_eq!(host.len(), 4);
    assert_eq!(host[2], words(&["iptables", "-P", "FORWARD", "ACCEPT"]));
    assert_eq!(netns_del_command("ns1"), words(&["ip", "netns", "del", "ns1"]));
}
