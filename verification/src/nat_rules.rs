//! The host's NAT rules: the masquerade rule that lets VMs reach the
//! outside, and the DNAT rules that route each VM's SSH port to port 22 of
//! the VM. Rules are built here and recognized again in the ruleset the
//! kernel reports, where the kernel may spell parts of a rule differently.

use crate::firecracker::string_of;
use crate::ipv4::{network_of, Ipv4Net};
use crate::network_names::{ipv4_text, ipv4_to_string};
use crate::text::{chars_equal, chars_of, decimal, digit_char};
use vstd::prelude::*;

verus! {

/// The table holding the host's NAT chains.
pub const NAT_TABLE_NAME: &'static str = "chelsea_nat";

/// The chain of the outbound masquerade rule.
pub const POSTROUTING_CHAIN_NAME: &'static str = "chelsea_postrouting";

/// The chain of the inbound SSH rules.
pub const PREROUTING_CHAIN_NAME: &'static str = "chelsea_prerouting";

/// The priority of the postrouting chain (nftables' "srcnat").
pub const POSTROUTING_PRIORITY: i32 = 100;

/// The priority of the prerouting chain (nftables' "dstnat").
pub const PREROUTING_PRIORITY: i32 = -100;

/// The port inbound SSH traffic is sent to inside the VM.
pub const SSH_TARGET_PORT: u16 = 22;

/// The meta keys the rules use.
#[derive(Debug, Clone, Copy, PartialEq, Eq, Structural)]
pub enum NatMetaKey {
    Oifname,
    L4proto,
    /// Any other key.
    Other,
}

/// An expression of a rule (the forms the rules use).
#[derive(Debug)]
pub enum NatExpr {
    /// A payload field, eg `ip saddr`.
    PayloadField { protocol: String, field: String },
    /// A meta key, eg `oifname`.
    Meta(NatMetaKey),
    /// A string.
    Str(String),
    /// A number.
    Number(u32),
    /// An address prefix.
    Prefix { addr: Box<NatExpr>, len: u32 },
    /// Any other expression.
    Other,
}

impl Clone for NatExpr {
    fn clone(&self) -> (r: Self)
        ensures
            r == *self,
        decreases self,
    {
        match self {
            NatExpr::PayloadField { protocol, field } => NatExpr::PayloadField {
                protocol: protocol.clone(),
                field: field.clone(),
            },
            NatExpr::Meta(k) => NatExpr::Meta(*k),
            NatExpr::Str(s) => NatExpr::Str(s.clone()),
            NatExpr::Number(n) => NatExpr::Number(*n),
            NatExpr::Prefix { addr, len } => NatExpr::Prefix {
                addr: Box::new((**addr).clone()),
                len: *len,
            },
            NatExpr::Other => NatExpr::Other,
        }
    }
}

/// The comparison of a match.
#[derive(Debug, Clone, Copy, PartialEq, Eq, Structural)]
pub enum NatOperator {
    Eq,
    /// Any other comparison.
    Other,
}

/// The address family of a NAT target.
#[derive(Debug, Clone, Copy, PartialEq, Eq, Structural)]
pub enum NatFamily {
    Ip,
    Ip6,
}

/// A match statement.
#[derive(Debug, Clone)]
pub struct NatMatch {
    pub left: NatExpr,
    pub right: NatExpr,
    pub op: NatOperator,
}

/// Where a DNAT statement sends packets.
#[derive(Debug, Clone)]
pub struct NatTarget {
    pub addr: Option<NatExpr>,
    pub family: Option<NatFamily>,
    pub port: Option<NatExpr>,
}

/// A statement of a rule (the forms the rules use).
#[derive(Debug, Clone)]
pub enum NatStatement {
    Match(NatMatch),
    Masquerade,
    Dnat(Option<NatTarget>),
    /// Any other statement.
    Other,
}

/// A rule of the IPv4 family (`family_ip`) or another.
#[derive(Debug, Clone)]
pub struct NatRule {
    pub family_ip: bool,
    pub table: String,
    pub chain: String,
    pub expr: Vec<NatStatement>,
    pub handle: Option<u32>,
}

/// Why a ruleset could not be read.
#[derive(Debug, Clone, Copy, PartialEq, Eq)]
pub enum NatRuleError {
    /// A source prefix whose address is not a string.
    UnexpectedPrefixAddress,
    /// A matching rule carries no handle.
    MatchedWithoutHandle,
}

/// The message of a ruleset error.
pub open spec fn nat_rule_error_text(e: NatRuleError) -> Seq<char> {
    match e {
        NatRuleError::UnexpectedPrefixAddress => "unexpected ip prefix address representation"@,
        NatRuleError::MatchedWithoutHandle => "rule matched without a handle"@,
    }
}

impl NatRuleError {
    /// The error's message.
    pub fn to_string(&self) -> (r: String)
        ensures
            r@ == nat_rule_error_text(*self),
    {
        match self {
            NatRuleError::UnexpectedPrefixAddress => string_of(
                "unexpected ip prefix address representation",
            ),
            NatRuleError::MatchedWithoutHandle => string_of("rule matched without a handle"),
        }
    }
}

/// `e` is the string `t`.
pub open spec fn str_expr_is(e: NatExpr, t: Seq<char>) -> bool {
    match e {
        NatExpr::Str(s) => s@ == t,
        _ => false,
    }
}

/// `e` is the payload field `protocol field`.
pub open spec fn payload_field_is(e: NatExpr, protocol: Seq<char>, field: Seq<char>) -> bool {
    match e {
        NatExpr::PayloadField { protocol: p, field: f } => p@ == protocol && f@ == field,
        _ => false,
    }
}

/// `st` is an equality match whose sides satisfy `left` and `right`.
pub open spec fn eq_match_with(st: NatStatement, left: spec_fn(NatExpr) -> bool, right: spec_fn(NatExpr) -> bool) -> bool {
    match st {
        NatStatement::Match(m) => m.op == NatOperator::Eq && left(m.left) && right(m.right),
        _ => false,
    }
}

/// The prefix expression of a network: its network address and prefix
/// length.
pub fn cidr_expression(net: &Ipv4Net) -> (r: NatExpr)
    ensures
        is_cidr_of(r, *net),
{
    NatExpr::Prefix {
        addr: Box::new(NatExpr::Str(ipv4_to_string(net.network()))),
        len: net.prefix_len() as u32,
    }
}

/// `r` is the masquerade rule for `net` and `iface`: in the host's
/// postrouting chain, an equality match of `ip saddr` with the network's
/// prefix, one of `oifname` with the interface, and a masquerade statement.
pub open spec fn is_outbound_rule_for(r: NatRule, net: Ipv4Net, iface: Seq<char>) -> bool {
    &&& r.family_ip
    &&& r.table@ == NAT_TABLE_NAME@
    &&& r.chain@ == POSTROUTING_CHAIN_NAME@
    &&& r.expr@.len() == 3
    &&& eq_match_with(
        r.expr@[0],
        |e: NatExpr| payload_field_is(e, "ip"@, "saddr"@),
        |e: NatExpr| is_cidr_of(e, net),
    )
    &&& eq_match_with(
        r.expr@[1],
        |e: NatExpr| e == NatExpr::Meta(NatMetaKey::Oifname),
        |e: NatExpr| str_expr_is(e, iface),
    )
    &&& r.expr@[2] is Masquerade
}

/// `r` is the SSH rule for `port` and `target`: in the host's prerouting
/// chain, an equality match of `meta l4proto` with `tcp`, one of `tcp dport`
/// with the port, and a DNAT to port 22 of the target over IPv4.
pub open spec fn is_inbound_rule_for(r: NatRule, port: u16, target: u32) -> bool {
    &&& r.family_ip
    &&& r.table@ == NAT_TABLE_NAME@
    &&& r.chain@ == PREROUTING_CHAIN_NAME@
    &&& r.expr@.len() == 3
    &&& eq_match_with(
        r.expr@[0],
        |e: NatExpr| e == NatExpr::Meta(NatMetaKey::L4proto),
        |e: NatExpr| str_expr_is(e, "tcp"@),
    )
    &&& eq_match_with(
        r.expr@[1],
        |e: NatExpr| payload_field_is(e, "tcp"@, "dport"@),
        |e: NatExpr| e == NatExpr::Number(port as u32),
    )
    &&& (match r.expr@[2] {
        NatStatement::Dnat(Some(t)) => t.family == Some(NatFamily::Ip) && (match t.addr {
            Some(a) => str_expr_is(a, ipv4_text(target)),
            None => false,
        }) && t.port == Some(NatExpr::Number(SSH_TARGET_PORT as u32)),
        _ => false,
    })
}

/// The rule that masquerades packets from `source_net` leaving through
/// `output_interface`.
pub fn outbound_masquerade_rule(source_net: &Ipv4Net, output_interface: &str) -> (r: NatRule)
    ensures
        is_outbound_rule_for(r, *source_net, output_interface@),
        r.handle is None,
{
    let mut expr: Vec<NatStatement> = Vec::new();
    expr.push(
        NatStatement::Match(
            NatMatch {
                left: NatExpr::PayloadField { protocol: string_of("ip"), field: string_of("saddr") },
                right: cidr_expression(source_net),
                op: NatOperator::Eq,
            },
        ),
    );
    expr.push(
        NatStatement::Match(
            NatMatch {
                left: NatExpr::Meta(NatMetaKey::Oifname),
                right: NatExpr::Str(string_of(output_interface)),
                op: NatOperator::Eq,
            },
        ),
    );
    expr.push(NatStatement::Masquerade);
    NatRule {
        family_ip: true,
        table: string_of(NAT_TABLE_NAME),
        chain: string_of(POSTROUTING_CHAIN_NAME),
        expr,
        handle: None,
    }
}

/// `e` is the prefix expression of `net`.
pub open spec fn is_cidr_of(e: NatExpr, net: Ipv4Net) -> bool {
    match e {
        NatExpr::Prefix { addr, len } => len == net@.prefix_len && str_expr_is(
            *addr,
            ipv4_text(network_of(net@.addr, net@.prefix_len) as u32),
        ),
        _ => false,
    }
}

/// The rule that sends TCP packets for `port` to port 22 of `target_addr`.
pub fn inbound_dnat_rule(port: u16, target_addr: u32) -> (r: NatRule)
    ensures
        is_inbound_rule_for(r, port, target_addr),
        r.handle is None,
{
    let mut expr: Vec<NatStatement> = Vec::new();
    expr.push(
        NatStatement::Match(
            NatMatch {
                left: NatExpr::Meta(NatMetaKey::L4proto),
                right: NatExpr::Str(string_of("tcp")),
                op: NatOperator::Eq,
            },
        ),
    );
    expr.push(
        NatStatement::Match(
            NatMatch {
                left: NatExpr::PayloadField { protocol: string_of("tcp"), field: string_of("dport") },
                right: NatExpr::Number(port as u32),
                op: NatOperator::Eq,
            },
        ),
    );
    expr.push(
        NatStatement::Dnat(
            Some(
                NatTarget {
                    addr: Some(NatExpr::Str(ipv4_to_string(target_addr))),
                    family: Some(NatFamily::Ip),
                    port: Some(NatExpr::Number(SSH_TARGET_PORT as u32)),
                },
            ),
        ),
    );
    NatRule {
        family_ip: true,
        table: string_of(NAT_TABLE_NAME),
        chain: string_of(PREROUTING_CHAIN_NAME),
        expr,
        handle: None,
    }
}

fn text_is(s: &String, expected: &str) -> (r: bool)
    ensures
        r == (s@ == expected@),
{
    let a = chars_of(s.as_str());
    let b = chars_of(expected);
    chars_equal(&a, &b)
}

/// Whether a match compares `ip saddr` with the prefix of `net`; an error
/// when it compares `ip saddr` with a prefix whose address is not a string.
pub open spec fn saddr_match_spec(left: NatExpr, right: NatExpr, net: Ipv4Net) -> Result<bool, NatRuleError> {
    if !payload_field_is(left, "ip"@, "saddr"@) {
        Ok(false)
    } else {
        match right {
            NatExpr::Prefix { addr, len } => match *addr {
                NatExpr::Str(s) => Ok(s@ == ipv4_text(network_of(net@.addr, net@.prefix_len) as u32)
                    && len == net@.prefix_len),
                _ => Err(NatRuleError::UnexpectedPrefixAddress),
            },
            _ => Ok(false),
        }
    }
}

/// Whether a match compares `ip saddr` with the prefix of `net`.
pub fn is_ip_saddr_match(left: &NatExpr, right: &NatExpr, net: &Ipv4Net) -> (r: Result<bool, NatRuleError>)
    ensures
        r == saddr_match_spec(*left, *right, *net),
{
    let is_saddr = match left {
        NatExpr::PayloadField { protocol, field } => text_is(protocol, "ip") && text_is(field, "saddr"),
        _ => false,
    };
    if !is_saddr {
        return Ok(false);
    }
    match right {
        NatExpr::Prefix { addr, len } => match &**addr {
            NatExpr::Str(s) => {
                let expected = ipv4_to_string(net.network());
                let same_addr = text_is(s, expected.as_str());
                Ok(same_addr && *len == net.prefix_len() as u32)
            },
            _ => Err(NatRuleError::UnexpectedPrefixAddress),
        },
        _ => Ok(false),
    }
}

/// Whether a match compares `oifname` with `iface`.
pub open spec fn oifname_match_spec(left: NatExpr, right: NatExpr, iface: Seq<char>) -> bool {
    left == NatExpr::Meta(NatMetaKey::Oifname) && str_expr_is(right, iface)
}

/// Whether a match compares `oifname` with `iface`.
pub fn is_oifname_match(left: &NatExpr, right: &NatExpr, iface: &str) -> (r: bool)
    ensures
        r == oifname_match_spec(*left, *right, iface@),
{
    match (left, right) {
        (NatExpr::Meta(NatMetaKey::Oifname), NatExpr::Str(value)) => text_is(value, iface),
        _ => false,
    }
}

/// Whether a match selects TCP (`meta l4proto tcp`).
pub open spec fn l4proto_tcp_spec(left: NatExpr, right: NatExpr) -> bool {
    left == NatExpr::Meta(NatMetaKey::L4proto) && str_expr_is(right, "tcp"@)
}

/// Whether a match selects TCP.
pub fn is_l4proto_tcp(left: &NatExpr, right: &NatExpr) -> (r: bool)
    ensures
        r == l4proto_tcp_spec(*left, *right),
{
    match (left, right) {
        (NatExpr::Meta(NatMetaKey::L4proto), NatExpr::Str(proto)) => text_is(proto, "tcp"),
        _ => false,
    }
}

/// Whether a match compares `tcp dport` with `port`.
pub open spec fn tcp_dport_spec(left: NatExpr, right: NatExpr, port: u16) -> bool {
    payload_field_is(left, "tcp"@, "dport"@) && right == NatExpr::Number(port as u32)
}

/// Whether a match compares `tcp dport` with `port`.
pub fn is_tcp_dport_match(left: &NatExpr, right: &NatExpr, port: u16) -> (r: bool)
    ensures
        r == tcp_dport_spec(*left, *right, port),
{
    match (left, right) {
        (NatExpr::PayloadField { protocol, field }, NatExpr::Number(value)) => text_is(protocol, "tcp")
            && text_is(field, "dport") && *value == port as u32,
        _ => false,
    }
}

/// The value of a decimal text as `u32::from_str` reads it: an optional
/// `+` followed by at least one digit, with no overflow; `None` otherwise.
pub open spec fn parse_u32_spec(s: Seq<char>) -> Option<u32> {
    let digits = if s.len() > 0 && s[0] == '+' {
        s.drop_first()
    } else {
        s
    };
    if digits.len() == 0 {
        None
    } else {
        match digits_value(digits) {
            Some(v) => if v <= u32::MAX {
                Some(v as u32)
            } else {
                None
            },
            None => None,
        }
    }
}

/// The value of a run of decimal digits, or `None` if some character is not
/// a digit.
pub open spec fn digits_value(digits: Seq<char>) -> Option<nat>
    decreases digits.len(),
{
    if digits.len() == 0 {
        Some(0)
    } else {
        match (digits_value(digits.drop_last()), digit_of(digits.last())) {
            (Some(v), Some(d)) => Some(v * 10 + d),
            _ => None,
        }
    }
}

/// The value of a decimal digit character.
pub open spec fn digit_of(c: char) -> Option<nat> {
    if c == '0' {
        Some(0)
    } else if c == '1' {
        Some(1)
    } else if c == '2' {
        Some(2)
    } else if c == '3' {
        Some(3)
    } else if c == '4' {
        Some(4)
    } else if c == '5' {
        Some(5)
    } else if c == '6' {
        Some(6)
    } else if c == '7' {
        Some(7)
    } else if c == '8' {
        Some(8)
    } else if c == '9' {
        Some(9)
    } else {
        None
    }
}

fn digit_value(c: char) -> (r: Option<u64>)
    ensures
        r matches Some(d) ==> digit_of(c) == Some(d as nat) && d < 10,
        r is None ==> digit_of(c) is None,
{
    if c == '0' {
        Some(0)
    } else if c == '1' {
        Some(1)
    } else if c == '2' {
        Some(2)
    } else if c == '3' {
        Some(3)
    } else if c == '4' {
        Some(4)
    } else if c == '5' {
        Some(5)
    } else if c == '6' {
        Some(6)
    } else if c == '7' {
        Some(7)
    } else if c == '8' {
        Some(8)
    } else if c == '9' {
        Some(9)
    } else {
        None
    }
}

proof fn lemma_digits_value_prefix_monotone(digits: Seq<char>, i: int)
    requires
        0 <= i <= digits.len(),
        digits_value(digits) is Some,
    ensures
        digits_value(digits.take(i)) is Some,
        digits_value(digits.take(i))->0 <= digits_value(digits)->0,
    decreases digits.len() - i,
{
    if i < digits.len() {
        let pre = digits.take(i + 1);
        assert(pre.drop_last() =~= digits.take(i));
        lemma_digits_value_prefix_monotone(digits, i + 1);
    } else {
        assert(digits.take(i) =~= digits);
    }
}

/// Reads a decimal `u32` as `u32::from_str` does.
pub fn parse_u32(s: &str) -> (r: Option<u32>)
    ensures
        r == parse_u32_spec(s@),
{
    let chars = chars_of(s);
    let start: usize = if chars.len() > 0 && chars[0] == '+' {
        1
    } else {
        0
    };
    let ghost digits = if s@.len() > 0 && s@[0] == '+' {
        s@.drop_first()
    } else {
        s@
    };
    proof {
        assert(digits =~= chars@.subrange(start as int, chars@.len() as int));
    }
    if start >= chars.len() {
        return None;
    }
    let mut value: u64 = 0;
    let mut i = start;
    while i < chars.len()
        invariant
            start <= i <= chars@.len(),
            start < chars@.len(),
            chars@ == s@,
            digits == (if s@.len() > 0 && s@[0] == '+' {
                s@.drop_first()
            } else {
                s@
            }),
            digits == chars@.subrange(start as int, chars@.len() as int),
            digits_value(digits.take(i - start)) == Some(value as nat),
            value <= u32::MAX,
        decreases chars@.len() - i,
    {
        let ghost pre = digits.take(i + 1 - start);
        proof {
            assert(pre.drop_last() =~= digits.take(i - start));
            assert(pre.last() == chars@[i as int]);
        }
        match digit_value(chars[i]) {
            Some(d) => {
                let next = value * 10 + d;
                if next > u32::MAX as u64 {
                    proof {
                        assert(digits_value(pre) == Some((value * 10 + d) as nat));
                        if digits_value(digits) is Some {
                            lemma_digits_value_prefix_monotone(digits, i + 1 - start);
                        }
                    }
                    return None;
                }
                value = next;
            },
            None => {
                proof {
                    assert(digits_value(pre) is None);
                    if digits_value(digits) is Some {
                        lemma_digits_value_prefix_monotone(digits, i + 1 - start);
                    }
                }
                return None;
            },
        }
        i = i + 1;
    }
    proof {
        assert(digits.take(i - start) =~= digits);
        assert(digits_value(digits) == Some(value as nat));
    }
    Some(value as u32)
}

/// Whether a DNAT target sends packets to port 22 of `target`: the address
/// must be the target's text, the port the number 22 (or a text the kernel
/// reports it as that reads as 22), and the family, when given, IPv4.
pub open spec fn dnat_matches_spec(t: NatTarget, target: u32) -> bool {
    let addr_ok = match t.addr {
        Some(a) => str_expr_is(a, ipv4_text(target)),
        None => false,
    };
    let port_ok = match t.port {
        Some(NatExpr::Number(v)) => v == SSH_TARGET_PORT as u32,
        Some(NatExpr::Str(s)) => parse_u32_spec(s@) == Some(SSH_TARGET_PORT as u32),
        _ => false,
    };
    let family_ok = match t.family {
        Some(f) => f == NatFamily::Ip,
        None => true,
    };
    addr_ok && port_ok && family_ok
}

/// Whether a DNAT target sends packets to port 22 of `target`.
pub fn dnat_matches(t: &NatTarget, target: u32) -> (r: bool)
    ensures
        r == dnat_matches_spec(*t, target),
{
    let expected = ipv4_to_string(target);
    let addr_ok = match &t.addr {
        Some(NatExpr::Str(s)) => text_is(s, expected.as_str()),
        _ => false,
    };
    let port_ok = match &t.port {
        Some(NatExpr::Number(v)) => *v == SSH_TARGET_PORT as u32,
        Some(NatExpr::Str(s)) => match parse_u32(s.as_str()) {
            Some(v) => v == SSH_TARGET_PORT as u32,
            None => false,
        },
        _ => false,
    };
    let family_ok = match t.family {
        Some(f) => f == NatFamily::Ip,
        None => true,
    };
    addr_ok && port_ok && family_ok
}

/// What a scan of an outbound rule has seen: the source match, the
/// interface match and the masquerade statement (or an error).
pub open spec fn outbound_scan(stmts: Seq<NatStatement>, net: Ipv4Net, iface: Seq<char>) -> Result<(bool, bool, bool), NatRuleError>
    decreases stmts.len(),
{
    if stmts.len() == 0 {
        Ok((false, false, false))
    } else {
        match outbound_scan(stmts.drop_last(), net, iface) {
            Err(e) => Err(e),
            Ok((src, ifc, masq)) => match stmts.last() {
                NatStatement::Match(m) => if m.op == NatOperator::Eq {
                    match saddr_match_spec(m.left, m.right, net) {
                        Err(e) => Err(e),
                        Ok(true) => Ok((true, ifc, masq)),
                        Ok(false) => Ok((src, ifc || oifname_match_spec(m.left, m.right, iface), masq)),
                    }
                } else {
                    Ok((src, ifc, masq))
                },
                NatStatement::Masquerade => Ok((src, ifc, true)),
                _ => Ok((src, ifc, masq)),
            },
        }
    }
}

/// Whether a rule masquerades packets from `net` leaving through `iface`:
/// it has an equality match of the source prefix, one of the interface, and
/// a masquerade statement, in any order among other statements.
pub open spec fn outbound_matches_spec(rule: NatRule, net: Ipv4Net, iface: Seq<char>) -> Result<bool, NatRuleError> {
    match outbound_scan(rule.expr@, net, iface) {
        Err(e) => Err(e),
        Ok((src, ifc, masq)) => Ok(src && ifc && masq),
    }
}

/// Whether a rule masquerades packets from `net` leaving through `iface`.
pub fn outbound_rule_matches(rule: &NatRule, net: &Ipv4Net, iface: &str) -> (r: Result<bool, NatRuleError>)
    ensures
        r == outbound_matches_spec(*rule, *net, iface@),
{
    let mut saw_source = false;
    let mut saw_interface = false;
    let mut saw_masquerade = false;
    let mut i: usize = 0;
    while i < rule.expr.len()
        invariant
            i <= rule.expr@.len(),
            outbound_scan(rule.expr@.take(i as int), *net, iface@) == Ok::<(bool, bool, bool), NatRuleError>((
                saw_source,
                saw_interface,
                saw_masquerade,
            )),
        decreases rule.expr@.len() - i,
    {
        proof {
            assert(rule.expr@.take(i + 1).drop_last() =~= rule.expr@.take(i as int));
            assert(rule.expr@.take(i + 1).last() == rule.expr@[i as int]);
        }
        match &rule.expr[i] {
            NatStatement::Match(m) => {
                if m.op == NatOperator::Eq {
                    match is_ip_saddr_match(&m.left, &m.right, net) {
                        Err(e) => {
                            proof {
                                lemma_outbound_scan_err_sticky(rule.expr@, i as int + 1, *net, iface@);
                            }
                            return Err(e);
                        },
                        Ok(true) => {
                            saw_source = true;
                        },
                        Ok(false) => {
                            if is_oifname_match(&m.left, &m.right, iface) {
                                saw_interface = true;
                            }
                        },
                    }
                }
            },
            NatStatement::Masquerade => {
                saw_masquerade = true;
            },
            _ => {},
        }
        i = i + 1;
    }
    proof {
        assert(rule.expr@.take(i as int) =~= rule.expr@);
    }
    Ok(saw_source && saw_interface && saw_masquerade)
}

proof fn lemma_outbound_scan_err_sticky(stmts: Seq<NatStatement>, i: int, net: Ipv4Net, iface: Seq<char>)
    requires
        0 <= i <= stmts.len(),
        outbound_scan(stmts.take(i), net, iface) is Err,
    ensures
        outbound_scan(stmts, net, iface) == outbound_scan(stmts.take(i), net, iface),
    decreases stmts.len() - i,
{
    if i < stmts.len() {
        assert(stmts.take(i + 1).drop_last() =~= stmts.take(i));
        lemma_outbound_scan_err_sticky(stmts, i + 1, net, iface);
    } else {
        assert(stmts.take(i) =~= stmts);
    }
}

/// What a scan of an inbound rule has seen: the port match and the DNAT
/// statement.
pub open spec fn inbound_scan(stmts: Seq<NatStatement>, port: u16, target: u32) -> (bool, bool)
    decreases stmts.len(),
{
    if stmts.len() == 0 {
        (false, false)
    } else {
        let (p, d) = inbound_scan(stmts.drop_last(), port, target);
        match stmts.last() {
            NatStatement::Match(m) => if m.op == NatOperator::Eq && !l4proto_tcp_spec(m.left, m.right)
                && tcp_dport_spec(m.left, m.right, port) {
                (true, d)
            } else {
                (p, d)
            },
            NatStatement::Dnat(Some(t)) => if dnat_matches_spec(t, target) {
                (p, true)
            } else {
                (p, d)
            },
            _ => (p, d),
        }
    }
}

/// Whether a rule sends TCP packets for `port` to port 22 of `target`: it
/// has an equality match of the destination port and a DNAT statement to the
/// target (the `tcp` protocol match the builder adds may be missing, as in
/// the rules the kernel reports).
pub open spec fn inbound_matches_spec(rule: NatRule, port: u16, target: u32) -> bool {
    let (p, d) = inbound_scan(rule.expr@, port, target);
    p && d
}

/// Whether a rule sends TCP packets for `port` to port 22 of `target`.
pub fn inbound_rule_matches(rule: &NatRule, port: u16, target: u32) -> (r: bool)
    ensures
        r == inbound_matches_spec(*rule, port, target),
{
    let mut saw_port = false;
    let mut saw_dnat = false;
    let mut i: usize = 0;
    while i < rule.expr.len()
        invariant
            i <= rule.expr@.len(),
            inbound_scan(rule.expr@.take(i as int), port, target) == (saw_port, saw_dnat),
        decreases rule.expr@.len() - i,
    {
        proof {
            assert(rule.expr@.take(i + 1).drop_last() =~= rule.expr@.take(i as int));
            assert(rule.expr@.take(i + 1).last() == rule.expr@[i as int]);
        }
        match &rule.expr[i] {
            NatStatement::Match(m) => {
                if m.op == NatOperator::Eq && !is_l4proto_tcp(&m.left, &m.right)
                    && is_tcp_dport_match(&m.left, &m.right, port) {
                    saw_port = true;
                }
            },
            NatStatement::Dnat(Some(t)) => {
                if dnat_matches(t, target) {
                    saw_dnat = true;
                }
            },
            _ => {},
        }
        i = i + 1;
    }
    proof {
        assert(rule.expr@.take(i as int) =~= rule.expr@);
    }
    saw_port && saw_dnat
}

/// Whether a rule is in the host's NAT table, in chain `chain`, of the IPv4
/// family.
pub open spec fn in_chain(rule: NatRule, chain: Seq<char>) -> bool {
    rule.family_ip && rule.table@ == NAT_TABLE_NAME@ && rule.chain@ == chain
}

/// The handle of the first rule of the chain that the matcher accepts.
pub open spec fn first_outbound_handle(rules: Seq<NatRule>, net: Ipv4Net, iface: Seq<char>) -> Result<Option<u32>, NatRuleError>
    decreases rules.len(),
{
    if rules.len() == 0 {
        Ok(None)
    } else {
        let rule = rules[0];
        if !in_chain(rule, POSTROUTING_CHAIN_NAME@) {
            first_outbound_handle(rules.drop_first(), net, iface)
        } else {
            match outbound_matches_spec(rule, net, iface) {
                Err(e) => Err(e),
                Ok(true) => match rule.handle {
                    Some(h) => Ok(Some(h)),
                    None => Err(NatRuleError::MatchedWithoutHandle),
                },
                Ok(false) => first_outbound_handle(rules.drop_first(), net, iface),
            }
        }
    }
}

/// The handle of the first inbound rule that sends `port` to `target`.
pub open spec fn first_inbound_handle(rules: Seq<NatRule>, port: u16, target: u32) -> Result<Option<u32>, NatRuleError>
    decreases rules.len(),
{
    if rules.len() == 0 {
        Ok(None)
    } else {
        let rule = rules[0];
        if !in_chain(rule, PREROUTING_CHAIN_NAME@) || !inbound_matches_spec(rule, port, target) {
            first_inbound_handle(rules.drop_first(), port, target)
        } else {
            match rule.handle {
                Some(h) => Ok(Some(h)),
                None => Err(NatRuleError::MatchedWithoutHandle),
            }
        }
    }
}

fn in_chain_exec(rule: &NatRule, chain: &str) -> (r: bool)
    ensures
        r == in_chain(*rule, chain@),
{
    rule.family_ip && text_is(&rule.table, NAT_TABLE_NAME) && text_is(&rule.chain, chain)
}

/// Finds the handle of the masquerade rule for `net` and `iface` among the
/// rules the kernel reports.
pub fn find_outbound_rule_handle(rules: &Vec<NatRule>, net: &Ipv4Net, iface: &str) -> (r: Result<Option<u32>, NatRuleError>)
    ensures
        r == first_outbound_handle(rules@, *net, iface@),
{
    let mut i: usize = 0;
    assert(rules@.skip(0) =~= rules@);
    while i < rules.len()
        invariant
            i <= rules@.len(),
            first_outbound_handle(rules@, *net, iface@) == first_outbound_handle(
                rules@.skip(i as int),
                *net,
                iface@,
            ),
        decreases rules@.len() - i,
    {
        let ghost rest = rules@.skip(i as int);
        proof {
            assert(rest.drop_first() =~= rules@.skip(i + 1));
            assert(rest[0] == rules@[i as int]);
        }
        let rule = &rules[i];
        if in_chain_exec(rule, POSTROUTING_CHAIN_NAME) {
            match outbound_rule_matches(rule, net, iface) {
                Err(e) => {
                    return Err(e);
                },
                Ok(true) => {
                    return match rule.handle {
                        Some(h) => Ok(Some(h)),
                        None => Err(NatRuleError::MatchedWithoutHandle),
                    };
                },
                Ok(false) => {},
            }
        }
        i = i + 1;
    }
    proof {
        assert(rules@.skip(i as int) =~= Seq::<NatRule>::empty());
    }
    Ok(None)
}

/// Finds the handle of the inbound rule for `port` and `target` among the
/// rules the kernel reports.
pub fn find_inbound_rule_handle(rules: &Vec<NatRule>, port: u16, target: u32) -> (r: Result<Option<u32>, NatRuleError>)
    ensures
        r == first_inbound_handle(rules@, port, target),
{
    let mut i: usize = 0;
    assert(rules@.skip(0) =~= rules@);
    while i < rules.len()
        invariant
            i <= rules@.len(),
            first_inbound_handle(rules@, port, target) == first_inbound_handle(
                rules@.skip(i as int),
                port,
                target,
            ),
        decreases rules@.len() - i,
    {
        let ghost rest = rules@.skip(i as int);
        proof {
            assert(rest.drop_first() =~= rules@.skip(i + 1));
            assert(rest[0] == rules@[i as int]);
        }
        let rule = &rules[i];
        if in_chain_exec(rule, PREROUTING_CHAIN_NAME) && inbound_rule_matches(rule, port, target) {
            return match rule.handle {
                Some(h) => Ok(Some(h)),
                None => Err(NatRuleError::MatchedWithoutHandle),
            };
        }
        i = i + 1;
    }
    proof {
        assert(rules@.skip(i as int) =~= Seq::<NatRule>::empty());
    }
    Ok(None)
}

/// The SSH rules among `wanted` (port and target) that the ruleset does not
/// have yet, in order; the first ruleset error met, if any.
pub open spec fn rules_to_add(rules: Seq<NatRule>, wanted: Seq<(u16, u32)>) -> Result<Seq<(u16, u32)>, NatRuleError>
    decreases wanted.len(),
{
    if wanted.len() == 0 {
        Ok(Seq::empty())
    } else {
        match first_inbound_handle(rules, wanted[0].0, wanted[0].1) {
            Err(e) => Err(e),
            Ok(Some(_)) => rules_to_add(rules, wanted.drop_first()),
            Ok(None) => match rules_to_add(rules, wanted.drop_first()) {
                Ok(rest) => Ok(seq![wanted[0]] + rest),
                Err(e) => Err(e),
            },
        }
    }
}

/// `found`, with `done` before its rules.
pub open spec fn after(done: Seq<(u16, u32)>, found: Result<Seq<(u16, u32)>, NatRuleError>) -> Result<Seq<(u16, u32)>, NatRuleError> {
    match found {
        Ok(rest) => Ok(done + rest),
        Err(e) => Err(e),
    }
}

/// Picks the inbound SSH rules of a batch that are not in the ruleset yet
/// (the batch only adds those).
pub fn missing_inbound_rules(rules: &Vec<NatRule>, wanted: &Vec<(u16, u32)>) -> (r: Result<Vec<(u16, u32)>, NatRuleError>)
    ensures
        match r {
            Ok(v) => rules_to_add(rules@, wanted@) == Ok::<Seq<(u16, u32)>, NatRuleError>(v@),
            Err(e) => rules_to_add(rules@, wanted@) == Err::<Seq<(u16, u32)>, NatRuleError>(e),
        },
{
    let mut out: Vec<(u16, u32)> = Vec::new();
    let mut i: usize = 0;
    assert(wanted@.skip(0) =~= wanted@);
    while i < wanted.len()
        invariant
            i <= wanted@.len(),
            rules_to_add(rules@, wanted@) == after(out@, rules_to_add(rules@, wanted@.skip(i as int))),
        decreases wanted@.len() - i,
    {
        let ghost rest = wanted@.skip(i as int);
        proof {
            assert(rest.drop_first() =~= wanted@.skip(i + 1));
            assert(rest[0] == wanted@[i as int]);
        }
        let (port, target) = wanted[i];
        match find_inbound_rule_handle(rules, port, target) {
            Err(e) => {
                return Err(e);
            },
            Ok(Some(_)) => {},
            Ok(None) => {
                let ghost before = out@;
                out.push((port, target));
                proof {
                    match rules_to_add(rules@, wanted@.skip(i + 1)) {
                        Ok(tail) => {
                            assert(before + (seq![(port, target)] + tail) =~= out@ + tail);
                        },
                        Err(_) => {},
                    }
                }
            },
        }
        i = i + 1;
    }
    proof {
        assert(wanted@.skip(i as int) =~= Seq::<(u16, u32)>::empty());
        assert(out@ + Seq::<(u16, u32)>::empty() =~= out@);
    }
    Ok(out)
}

/// The matcher recognizes the masquerade rule the builder makes exactly for
/// what it was built for: a rule built for network `net` and interface
/// `iface` matches network `other_net` and interface `other` exactly when the
/// two networks have the same network address and prefix length and `other`
/// is `iface`.
pub proof fn lemma_built_outbound_rule_matches(
    r: NatRule,
    net: Ipv4Net,
    iface: Seq<char>,
    other_net: Ipv4Net,
    other: Seq<char>,
)
    requires
        is_outbound_rule_for(r, net, iface),
    ensures
        outbound_matches_spec(r, other_net, other) == Ok::<bool, NatRuleError>(
            network_of(net@.addr, net@.prefix_len) as u32 == network_of(
                other_net@.addr,
                other_net@.prefix_len,
            ) as u32 && net@.prefix_len == other_net@.prefix_len && other == iface,
        ),
{
    let stmts = r.expr@;
    let a = network_of(net@.addr, net@.prefix_len) as u32;
    let b = network_of(other_net@.addr, other_net@.prefix_len) as u32;
    let same = a == b && net@.prefix_len == other_net@.prefix_len;
    assert(stmts.take(1).drop_last() =~= Seq::<NatStatement>::empty());
    assert(stmts.take(2).drop_last() =~= stmts.take(1));
    assert(stmts.take(3).drop_last() =~= stmts.take(2));
    assert(stmts.take(3) =~= stmts);
    assert(stmts.take(1).last() == stmts[0]);
    assert(stmts.take(2).last() == stmts[1]);
    assert(stmts.take(3).last() == stmts[2]);
    assert(outbound_scan(Seq::<NatStatement>::empty(), other_net, other) == Ok::<(bool, bool, bool), NatRuleError>((false, false, false)));
    if ipv4_text(a) == ipv4_text(b) {
        crate::network_names::lemma_ipv4_text_injective(a, b);
    }
    match stmts[0] {
        NatStatement::Match(m) => {
            assert(payload_field_is(m.left, "ip"@, "saddr"@));
            assert(is_cidr_of(m.right, net));
            assert(saddr_match_spec(m.left, m.right, other_net) == Ok::<bool, NatRuleError>(same));
            assert(oifname_match_spec(m.left, m.right, other) == false);
        },
        _ => {},
    }
    match stmts[1] {
        NatStatement::Match(m) => {
            assert(!payload_field_is(m.left, "ip"@, "saddr"@));
            assert(saddr_match_spec(m.left, m.right, other_net) == Ok::<bool, NatRuleError>(false));
            assert(oifname_match_spec(m.left, m.right, other) == (other == iface));
        },
        _ => {},
    }
    assert(outbound_scan(stmts.take(1), other_net, other) == Ok::<(bool, bool, bool), NatRuleError>((same, false, false)));
    assert(outbound_scan(stmts.take(2), other_net, other) == Ok::<(bool, bool, bool), NatRuleError>((same, other == iface, false)));
}

/// The matcher recognizes the SSH rule the builder makes exactly for what it
/// was built for: a rule built for `port` and `target` matches `other_port`
/// and `other_target` exactly when both are the same.
pub proof fn lemma_built_inbound_rule_matches(r: NatRule, port: u16, target: u32, other_port: u16, other_target: u32)
    requires
        is_inbound_rule_for(r, port, target),
    ensures
        inbound_matches_spec(r, other_port, other_target) == (port == other_port && target == other_target),
{
    let stmts = r.expr@;
    assert(stmts.take(1).drop_last() =~= Seq::<NatStatement>::empty());
    assert(stmts.take(2).drop_last() =~= stmts.take(1));
    assert(stmts.take(3).drop_last() =~= stmts.take(2));
    assert(stmts.take(3) =~= stmts);
    assert(stmts.take(1).last() == stmts[0]);
    assert(stmts.take(2).last() == stmts[1]);
    assert(stmts.take(3).last() == stmts[2]);
    assert(inbound_scan(Seq::<NatStatement>::empty(), other_port, other_target) == (false, false));
    if ipv4_text(target) == ipv4_text(other_target) {
        crate::network_names::lemma_ipv4_text_injective(target, other_target);
    }
    match stmts[0] {
        NatStatement::Match(m) => {
            assert(l4proto_tcp_spec(m.left, m.right));
        },
        _ => {},
    }
    match stmts[1] {
        NatStatement::Match(m) => {
            assert(!l4proto_tcp_spec(m.left, m.right));
            assert(tcp_dport_spec(m.left, m.right, other_port) == (port == other_port));
        },
        _ => {},
    }
    match stmts[2] {
        NatStatement::Dnat(Some(t)) => {
            assert(dnat_matches_spec(t, other_target) == (target == other_target));
        },
        _ => {},
    }
    assert(inbound_scan(stmts.take(1), other_port, other_target) == (false, false));
    assert(inbound_scan(stmts.take(2), other_port, other_target) == (port == other_port, false));
}

} // verus!
