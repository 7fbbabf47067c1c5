use chelsea_lib::wireguard::{WgAction, WgEvent, WgParams, WgSetup, WgSetupFailure};

fn label(a: &WgAction<&'static str>) -> String {
    match a {
        WgAction::ListWireGuardInterfaces => "list".into(),
        WgAction::DeleteStaleInterfaces { names } => format!("delete stale {}", names.join(",")),
        WgAction::CreateInterface => "create".into(),
        WgAction::ConfigureInterface { .. } => "configure".into(),
        WgAction::MoveToNamespace => "move".into(),
        WgAction::SetListenPort { .. } => "port".into(),
        WgAction::AddAddress { .. } => "address".into(),
        WgAction::BringUp => "up".into(),
        WgAction::WaitThenBringUp { delay_ms } => format!("wait {delay_ms} up"),
        WgAction::AddRoute { .. } => "route".into(),
        WgAction::DeleteInterface { args } => format!("delete: {}", args.join(" ")),
        WgAction::Finish(Ok(())) => "ok".into(),
        WgAction::Finish(Err(WgSetupFailure::Step(e))) => format!("err {e}"),
        WgAction::Finish(Err(WgSetupFailure::NotUp(t))) => format!("not up: {t}"),
    }
}

fn params() -> WgParams {
    WgParams {
        private_key: "cHJpdmF0ZQ==".to_string(),
        private_ip: "fd00::2".to_string(),
        peer_public_key: "cGVlcg==".to_string(),
        peer_public_ip: 0x0a000001,
        peer_private_ip: "fd00::1".to_string(),
        listen_port: 51820,
    }
}

/// Drives a setup; `up_errors` are the error outputs of successive failed
/// attempts to bring the interface up.
fn drive(listing: &str, fail: Option<&str>, up_errors: Vec<&str>) -> Vec<String> {
    let (mut m, mut a) = WgSetup::<&'static str>::start("vm_abc", "vm_ns", params());
    let mut seen = vec![label(&a)];
    let mut up_errors = up_errors.into_iter();
    while !m.is_finished() {
        let l = label(&a);
        let ev = if Some(l.as_str()) == fail {
            WgEvent::Failed("boom")
        } else if l == "list" {
            WgEvent::Listed { output: listing.to_string() }
        } else if l == "up" || l.starts_with("wait") {
            match up_errors.next() {
                Some(e) => WgEvent::UpFailed { stderr: e.to_string() },
                None => WgEvent::Succeeded,
            }
        } else {
            WgEvent::Succeeded
        };
        a = m.step(ev);
        seen.push(label(&a));
    }
    seen
}

#[test]
fn wg_setup_in_order() {
    assert_eq!(
        drive("", None, vec![]),
        vec!["list", "create", "configure", "move", "port", "address", "up", "route", "ok"]
    );
}

#[test]
fn wg_setup_deletes_stale_interfaces_first() {
    let seen = drive("7: vm_old@NONE: <POINTOPOINT> mtu 1420\n", None, vec![]);
    assert_eq!(&seen[..3], &["list", "delete stale vm_old", "create"]);
}

#[test]
fn wg_failure_before_move_deletes_globally() {
    assert_eq!(
        drive("", Some("configure"), vec![]),
        vec!["list", "create", "configure", "delete: ip link del vm_abc", "err boom"]
    );
}

#[test]
fn wg_failure_after_move_deletes_in_namespace() {
    let seen = drive("", Some("route"), vec![]);
    assert_eq!(
        &seen[seen.len() - 2..],
        &["delete: ip netns exec vm_ns ip link del vm_abc", "err boom"]
    );
}

#[test]
fn wg_create_failure_deletes_nothing() {
    assert_eq!(drive("", Some("create"), vec![]), vec!["list", "create", "err boom"]);
}

#[test]
fn wg_up_retried_on_address_in_use() {
    let seen = drive("", None, vec!["RTNETLINK: Address already in use", "Address already in use"]);
    assert_eq!(&seen[6..], &["up", "wait 200 up", "wait 400 up", "route", "ok"]);
}

#[test]
fn wg_up_other_error_gives_up() {
    let seen = drive("", None, vec!["Operation not permitted"]);
    assert_eq!(
        &seen[6..],
        &["up", "delete: ip netns exec vm_ns ip link del vm_abc", "not up: Operation not permitted"]
    );
}

#[test]
fn wg_up_gives_up_after_six_attempts() {
    let e = "Address already in use";
    let seen = drive("", None, vec![e, e, e, e, e, e]);
    assert_eq!(
        &seen[6..],
        &[
            "up",
            "wait 200 up",
            "wait 400 up",
            "wait 800 up",
            "wait 1600 up",
            "wait 2000 up",
            "delete: ip netns exec vm_ns ip link del vm_abc",
            "not up: Address already in use",
        ]
    );
}

#[test]
fn wg_setup_configuration_values() {
    let (mut m, _) = WgSetup::<&'static str>::start("vm_abc", "vm_ns", params());
    let _create = m.step(WgEvent::Succeeded);
    match m.step(WgEvent::Succeeded) {
        WgAction::ConfigureInterface { config } => {
            assert_eq!(config.name, "vm_abc");
            assert_eq!(config.private_key, "cHJpdmF0ZQ==");
            assert_eq!(config.listen_port, 0);
            assert_eq!(config.addresses, vec!["fd00::2/128".to_string()]);
            assert_eq!(config.peers.len(), 1);
            let peer = &config.peers[0];
            assert_eq!(peer.public_key, "cGVlcg==");
            assert_eq!(peer.endpoint_ip, 0x0a000001);
            assert_eq!(peer.endpoint_port, 51282);
            assert_eq!(peer.persistent_keepalive, 45);
            assert_eq!(peer.allowed_ips, vec!["fd00::1/128".to_string()]);
        }
        _ => panic!("expected the configuration"),
    }
    assert!(matches!(m.step(WgEvent::Succeeded), WgAction::MoveToNamespace));
    assert!(matches!(m.step(WgEvent::Succeeded), WgAction::SetListenPort { port: 51820 }));
    match m.step(WgEvent::Succeeded) {
        WgAction::AddAddress { address } => assert_eq!(address, "fd00::2/128"),
        _ => panic!("expected the address"),
    }
    assert!(matches!(m.step(WgEvent::Succeeded), WgAction::BringUp));
    match m.step(WgEvent::Succeeded) {
        WgAction::AddRoute { destination } => assert_eq!(destination, "fd00::1/128"),
        _ => panic!("expected the route"),
    }
}
