use chelsea_lib::lifecycle::{network_slot_plan, Cleanup, Step};
use chelsea_lib::net_init::{check_existing_network, ExistingNetwork, InitAction, InitEvent, NetworkInit};

fn label(a: &InitAction<&'static str>) -> String {
    match a {
        InitAction::AddSshRules => "rules".into(),
        InitAction::DeleteNetwork(i) => format!("delete network {i}"),
        InitAction::DeleteRecord(i) => format!("delete record {i}"),
        InitAction::Finish(Ok(())) => "ok".into(),
        InitAction::Finish(Err(e)) => format!("err {e}"),
    }
}

fn drive(count: usize, rules_fail: bool) -> Vec<String> {
    let (mut m, mut a) = NetworkInit::<&'static str>::start(count);
    let mut seen = vec![label(&a)];
    while !m.is_finished() {
        let ev = if label(&a) == "rules" && rules_fail {
            InitEvent::Failed("nft failed")
        } else if label(&a).starts_with("delete") {
            // Cleanup failures are only logged.
            InitEvent::Failed("ignored")
        } else {
            InitEvent::Succeeded
        };
        a = m.step(ev);
        seen.push(label(&a));
    }
    seen
}

#[test]
fn test_cleanup_networks_on_error() {
    assert_eq!(
        drive(2, true),
        vec!["rules", "delete network 0", "delete record 0", "delete network 1", "delete record 1", "err nft failed"]
    );
}

#[test]
fn test_cleanup_networks_on_error_empty_list() {
    assert_eq!(drive(0, true), vec!["ok"]);
}

#[test]
fn initialization_with_rules_applied() {
    assert_eq!(drive(3, false), vec!["rules", "ok"]);
}

#[test]
fn stored_network_kept_only_when_complete() {
    assert_eq!(check_existing_network(true, true), ExistingNetwork::Keep);
    assert_eq!(check_existing_network(false, true), ExistingNetwork::Rebuild);
    assert_eq!(check_existing_network(true, false), ExistingNetwork::Rebuild);
}

#[test]
fn network_slot_plan_shapes() {
    let p = network_slot_plan(true);
    assert_eq!(p.len(), 3);
    assert_eq!(p[0].step, Step::DeleteNetworkRecord);
    assert_eq!(p[1].cleanup, Some(Cleanup::DeleteNetwork));
    assert_eq!(network_slot_plan(false).len(), 2);
}
