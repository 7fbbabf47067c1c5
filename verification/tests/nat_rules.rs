use chelsea_lib::ipv4::Ipv4Net;
use chelsea_lib::nat_rules::{
    cidr_expression, dnat_matches, find_inbound_rule_handle, find_outbound_rule_handle,
    inbound_dnat_rule, inbound_rule_matches, outbound_masquerade_rule, outbound_rule_matches,
    parse_u32, NatExpr, NatFamily, NatMatch, NatMetaKey, NatOperator, NatRule, NatRuleError,
    NatStatement, NatTarget, NAT_TABLE_NAME, POSTROUTING_CHAIN_NAME, PREROUTING_CHAIN_NAME,
};

fn ip(a: u8, b: u8, c: u8, d: u8) -> u32 {
    (a as u32) << 24 | (b as u32) << 16 | (c as u32) << 8 | d as u32
}

fn net(a: u8, b: u8, c: u8, d: u8, prefix_len: u8) -> Ipv4Net {
    Ipv4Net::new(ip(a, b, c, d), prefix_len).unwrap()
}

#[test]
fn outbound_rule_builder_sets_expected_matches() {
    let n = net(10, 20, 30, 0, 24);
    let rule = outbound_masquerade_rule(&n, "eth0");

    assert_eq!(rule.chain, POSTROUTING_CHAIN_NAME);
    assert_eq!(rule.table, NAT_TABLE_NAME);
    assert!(rule.family_ip);
    assert_eq!(rule.expr.len(), 3);

    match (&rule.expr[0], &rule.expr[1], &rule.expr[2]) {
        (NatStatement::Match(first), NatStatement::Match(second), NatStatement::Masquerade) => {
            assert!(matches!(
                &first.left,
                NatExpr::PayloadField { protocol, field } if protocol == "ip" && field == "saddr"
            ));
            assert!(matches!(&first.right, NatExpr::Prefix { len, .. } if *len == 24));
            assert!(matches!(&second.left, NatExpr::Meta(NatMetaKey::Oifname)));
            match &second.right {
                NatExpr::Str(iface) => assert_eq!(iface, "eth0"),
                other => panic!("unexpected interface match rhs: {:?}", other),
            }
        }
        _ => panic!("unexpected expression layout for outbound rule"),
    }
}

#[test]
fn outbound_rule_match_helpers_detect_expected_rule() {
    let n = net(10, 200, 0, 0, 24);
    let rule = outbound_masquerade_rule(&n, "wan0");

    assert!(outbound_rule_matches(&rule, &n, "wan0").expect("outbound matcher should succeed"));
    assert!(!outbound_rule_matches(&rule, &n, "lan0").expect("outbound matcher should succeed"));
}

#[test]
fn inbound_rule_builder_and_match_helpers_cover_kernel_formats() {
    let target = ip(198, 51, 100, 7);
    let port = 30123;
    let rule = inbound_dnat_rule(port, target);
    assert!(inbound_rule_matches(&rule, port, target));

    let kernel_rule = NatRule {
        family_ip: true,
        table: NAT_TABLE_NAME.to_string(),
        chain: PREROUTING_CHAIN_NAME.to_string(),
        expr: vec![
            NatStatement::Match(NatMatch {
                left: NatExpr::PayloadField { protocol: "tcp".to_string(), field: "dport".to_string() },
                right: NatExpr::Number(port as u32),
                op: NatOperator::Eq,
            }),
            NatStatement::Dnat(Some(NatTarget {
                addr: Some(NatExpr::Str("198.51.100.7".to_string())),
                family: None,
                port: Some(NatExpr::Str("22".to_string())),
            })),
        ],
        handle: Some(42),
    };

    assert!(inbound_rule_matches(&kernel_rule, port, target));
}

#[test]
fn find_rule_handle_returns_matching_handle() {
    let n = net(10, 10, 0, 0, 24);
    let mut rule = outbound_masquerade_rule(&n, "eth99");
    rule.handle = Some(555);

    let ruleset = vec![rule];
    let handle = find_outbound_rule_handle(&ruleset, &n, "eth99").expect("handle lookup should succeed");
    assert_eq!(handle, Some(555));
}

#[test]
fn cidr_expression_produces_expected_prefix() {
    let n = net(192, 168, 0, 128, 25);
    let expr = cidr_expression(&n);
    match expr {
        NatExpr::Prefix { addr, len } => {
            let rendered = match *addr {
                NatExpr::Str(ref s) => s.clone(),
                _ => panic!("unexpected prefix address expression"),
            };
            assert_eq!(rendered, "192.168.0.128");
            assert_eq!(len, 25);
        }
        other => panic!("unexpected expression: {:?}", other),
    }
}

#[test]
fn cidr_expression_uses_network_address() {
    let expr = cidr_expression(&net(10, 1, 2, 3, 16));
    match expr {
        NatExpr::Prefix { addr, len } => {
            assert!(matches!(*addr, NatExpr::Str(ref s) if s == "10.1.0.0"));
            assert_eq!(len, 16);
        }
        other => panic!("unexpected expression: {:?}", other),
    }
}

#[test]
fn outbound_matcher_rejects_non_string_prefix_address() {
    let n = net(10, 0, 0, 0, 8);
    let mut rule = outbound_masquerade_rule(&n, "eth0");
    rule.expr[0] = NatStatement::Match(NatMatch {
        left: NatExpr::PayloadField { protocol: "ip".to_string(), field: "saddr".to_string() },
        right: NatExpr::Prefix { addr: Box::new(NatExpr::Number(7)), len: 8 },
        op: NatOperator::Eq,
    });
    assert_eq!(outbound_rule_matches(&rule, &n, "eth0"), Err(NatRuleError::UnexpectedPrefixAddress));
    assert_eq!(
        NatRuleError::UnexpectedPrefixAddress.to_string(),
        "unexpected ip prefix address representation"
    );
}

#[test]
fn find_rule_handle_requires_a_handle_and_the_right_chain() {
    let target = ip(10, 0, 0, 9);
    let rule = inbound_dnat_rule(2222, target);
    let ruleset = vec![rule.clone()];
    assert_eq!(find_inbound_rule_handle(&ruleset, 2222, target), Err(NatRuleError::MatchedWithoutHandle));
    let mut other_chain = rule.clone();
    other_chain.chain = "elsewhere".to_string();
    other_chain.handle = Some(1);
    let mut right = rule;
    right.handle = Some(2);
    let ruleset = vec![other_chain, right];
    assert_eq!(find_inbound_rule_handle(&ruleset, 2222, target), Ok(Some(2)));
    assert_eq!(find_inbound_rule_handle(&ruleset, 2223, target), Ok(None));
}

#[test]
fn dnat_port_text_is_read_like_u32_from_str() {
    let target = ip(1, 2, 3, 4);
    let t = |port: NatExpr, family: Option<NatFamily>| NatTarget {
        addr: Some(NatExpr::Str("1.2.3.4".to_string())),
        family,
        port: Some(port),
    };
    assert!(dnat_matches(&t(NatExpr::Str("+22".to_string()), None), target));
    assert!(dnat_matches(&t(NatExpr::Str("0022".to_string()), Some(NatFamily::Ip)), target));
    assert!(!dnat_matches(&t(NatExpr::Str("22 ".to_string()), None), target));
    assert!(!dnat_matches(&t(NatExpr::Number(22), Some(NatFamily::Ip6)), target));
    assert!(!dnat_matches(&t(NatExpr::Number(23), None), target));
    assert_eq!(parse_u32("4294967295"), Some(u32::MAX));
    assert_eq!(parse_u32("4294967296"), None);
    assert_eq!(parse_u32(""), None);
    assert_eq!(parse_u32("+"), None);
    assert_eq!(parse_u32("-1"), None);
    for s in ["0", "7", "+9", "00012", "4294967295", "99999999999", "1a", " 1"] {
        assert_eq!(parse_u32(s), s.parse::<u32>().ok(), "{s}");
    }
}

use chelsea_lib::nat_rules::missing_inbound_rules;

#[test]
fn batch_adds_only_missing_ssh_rules() {
    let a = ip(10, 0, 0, 3);
    let b = ip(10, 0, 0, 5);
    let mut existing = inbound_dnat_rule(3000, a);
    existing.handle = Some(7);
    let ruleset = vec![existing];
    assert_eq!(
        missing_inbound_rules(&ruleset, &vec![(3000, a), (3001, b), (3002, a)]),
        Ok(vec![(3001, b), (3002, a)])
    );
    assert_eq!(missing_inbound_rules(&ruleset, &vec![(3000, a)]), Ok(vec![]));
    let unhandled = vec![inbound_dnat_rule(3001, b)];
    assert_eq!(
        missing_inbound_rules(&unhandled, &vec![(3000, a), (3001, b)]),
        Err(NatRuleError::MatchedWithoutHandle)
    );
}
