use chelsea_lib::wireguard::{
    link_line_interface_name, orphaned_wireguard_interfaces, parse_wireguard_interfaces,
    text_contains, up_retry_decision, InterfaceGuard, UpRetry,
};

#[test]
fn interface_guard_new_deletes_in_global_namespace() {
    let guard = InterfaceGuard::new("vm_abc");
    assert_eq!(guard.cleanup_command(), Some(vec!["ip".to_string(), "link".to_string(), "del".to_string(), "vm_abc".to_string()]));
}

#[test]
fn interface_guard_follows_move_to_namespace() {
    let mut guard = InterfaceGuard::new("vm_abc");
    guard.moved_to_namespace("vm_10_0_0_2");
    assert_eq!(
        guard.cleanup_command(),
        Some(
            ["ip", "netns", "exec", "vm_10_0_0_2", "ip", "link", "del", "vm_abc"]
                .iter()
                .map(|s| s.to_string())
                .collect()
        )
    );
}

#[test]
fn interface_guard_disarmed_deletes_nothing() {
    let mut guard = InterfaceGuard::new("vm_abc");
    guard.moved_to_namespace("ns");
    guard.disarm();
    assert_eq!(guard.cleanup_command(), None);
}

#[test]
fn link_lines_name_interfaces() {
    assert_eq!(
        link_line_interface_name("5: vm_1234@NONE: <POINTOPOINT,NOARP,UP> mtu 1420"),
        Some("vm_1234".to_string())
    );
    assert_eq!(link_line_interface_name("7: wg0: <POINTOPOINT> mtu 1420"), Some("wg0".to_string()));
    assert_eq!(link_line_interface_name("7:"), None);
    assert_eq!(link_line_interface_name(""), None);
    assert_eq!(link_line_interface_name("9: a::: x"), Some("a".to_string()));
}

#[test]
fn orphans_are_vm_interfaces_only() {
    let out = "3: vm_aa@NONE: <UP> mtu 1420\n4: wg0: <UP> mtu 1420\n5: vm_bb: <UP>\n";
    assert_eq!(parse_wireguard_interfaces(out), vec!["vm_aa".to_string(), "wg0".to_string(), "vm_bb".to_string()]);
    assert_eq!(orphaned_wireguard_interfaces(out), vec!["vm_aa".to_string(), "vm_bb".to_string()]);
    assert!(orphaned_wireguard_interfaces("").is_empty());
}

#[test]
fn up_retries_only_on_address_in_use() {
    let busy = "RTNETLINK answers: Address already in use";
    assert_eq!(up_retry_decision(0, busy), UpRetry::RetryAfter(200));
    assert_eq!(up_retry_decision(1, busy), UpRetry::RetryAfter(400));
    assert_eq!(up_retry_decision(2, busy), UpRetry::RetryAfter(800));
    assert_eq!(up_retry_decision(3, busy), UpRetry::RetryAfter(1600));
    assert_eq!(up_retry_decision(4, busy), UpRetry::RetryAfter(2000));
    assert_eq!(up_retry_decision(5, busy), UpRetry::GiveUp);
    assert_eq!(up_retry_decision(0, "Operation not permitted"), UpRetry::GiveUp);
}

#[test]
fn substring_search() {
    assert!(text_contains("abcabd", "abd"));
    assert!(text_contains("abc", ""));
    assert!(!text_contains("ab", "abc"));
    assert!(!text_contains("aXbXc", "abc"));
}

#[test]
fn interface_listing_splits_lines_like_str_lines() {
    let output = "3: vm_a@NONE: <POINTOPOINT> mtu 1420\r\n\n4: vm_b: <NOARP> mtu 1420\n5:";
    assert_eq!(parse_wireguard_interfaces(output), vec!["vm_a".to_string(), "vm_b".to_string()]);
    assert!(parse_wireguard_interfaces("").is_empty());
    assert!(parse_wireguard_interfaces("\n\n").is_empty());
}
