use chelsea_lib::ipv4::{pow2_u64, Ipv4Net};
use chelsea_lib::nat_rules::{
    is_ip_saddr_match, is_l4proto_tcp, is_oifname_match, is_tcp_dport_match, NatExpr, NatMetaKey,
    NatRuleError,
};
use chelsea_lib::paths::{is_absolute, path_join};
use chelsea_lib::teardown::join_texts;
use chelsea_lib::text::{chars_equal, chars_of, digit, push_decimal, push_pad3, push_str};

#[test]
fn path_join_follows_path_push() {
    assert_eq!(path_join("/srv/jailer", "run/ch.sock"), "/srv/jailer/run/ch.sock");
    assert_eq!(path_join("/srv/jailer/", "run"), "/srv/jailer/run");
    assert_eq!(path_join("/srv/jailer", "/abs"), "/abs");
    assert_eq!(path_join("", "rel"), "rel");
    assert!(is_absolute("/x"));
    assert!(!is_absolute("x/y"));
}

#[test]
fn text_building() {
    let mut out: Vec<char> = Vec::new();
    push_str(&mut out, "n=");
    push_decimal(&mut out, 1234567890123);
    push_str(&mut out, " p=");
    push_pad3(&mut out, 7);
    assert_eq!(out.iter().collect::<String>(), "n=1234567890123 p=007");
    assert_eq!(digit(9), '9');
    assert!(chars_equal(&chars_of("abc"), &chars_of("abc")));
    assert!(!chars_equal(&chars_of("abc"), &chars_of("abd")));
    assert_eq!(join_texts(&vec!["a".to_string(), "b".to_string()], "; "), "a; b");
    assert_eq!(join_texts(&vec![], ", "), "");
    assert_eq!(pow2_u64(10), 1024);
    assert_eq!(Ipv4Net::new(0, 33).is_err(), true);
}

#[test]
fn nat_match_helpers() {
    let saddr = NatExpr::PayloadField { protocol: "ip".to_string(), field: "saddr".to_string() };
    let net = Ipv4Net::new(u32::from_be_bytes([10, 0, 0, 5]), 24).unwrap();
    let prefix = NatExpr::Prefix { addr: Box::new(NatExpr::Str("10.0.0.0".to_string())), len: 24 };
    assert_eq!(is_ip_saddr_match(&saddr, &prefix, &net), Ok(true));
    let wrong_len = NatExpr::Prefix { addr: Box::new(NatExpr::Str("10.0.0.0".to_string())), len: 16 };
    assert_eq!(is_ip_saddr_match(&saddr, &wrong_len, &net), Ok(false));
    let bad = NatExpr::Prefix { addr: Box::new(NatExpr::Number(1)), len: 24 };
    assert_eq!(is_ip_saddr_match(&saddr, &bad, &net), Err(NatRuleError::UnexpectedPrefixAddress));
    let oif = NatExpr::Meta(NatMetaKey::Oifname);
    assert!(is_oifname_match(&oif, &NatExpr::Str("eth0".to_string()), "eth0"));
    assert!(!is_oifname_match(&oif, &NatExpr::Str("eth1".to_string()), "eth0"));
    let l4 = NatExpr::Meta(NatMetaKey::L4proto);
    assert!(is_l4proto_tcp(&l4, &NatExpr::Str("tcp".to_string())));
    assert!(!is_l4proto_tcp(&l4, &NatExpr::Str("udp".to_string())));
    let dport = NatExpr::PayloadField { protocol: "tcp".to_string(), field: "dport".to_string() };
    assert!(is_tcp_dport_match(&dport, &NatExpr::Number(2222), 2222));
    assert!(!is_tcp_dport_match(&dport, &NatExpr::Number(2223), 2222));
}
