//! Names and derived addresses of the host-side network objects of a VM:
//! the guest address of a point-to-point pair, the network namespace, the
//! veth pair and the guest MAC address.

use crate::text::{all_digits, decimal, is_digit, lemma_decimal_digits, lemma_decimal_injective, lemma_pad3_injective, pad3, push_decimal, push_pad3, push_str, string_from_chars};
use vstd::prelude::*;

verus! {

/// The first (most significant) octet of an address.
pub open spec fn octet0(a: u32) -> u32 {
    a >> 24u32
}

/// The second octet of an address.
pub open spec fn octet1(a: u32) -> u32 {
    (a >> 16u32) & 0xffu32
}

/// The third octet of an address.
pub open spec fn octet2(a: u32) -> u32 {
    (a >> 8u32) & 0xffu32
}

/// The last (least significant) octet of an address.
pub open spec fn octet3(a: u32) -> u32 {
    a & 0xffu32
}

/// Octets are bytes, and an address is determined by its octets.
pub proof fn lemma_octets(a: u32, b: u32)
    ensures
        octet0(a) <= 255,
        octet1(a) <= 255,
        octet2(a) <= 255,
        octet3(a) <= 255,
        octet0(a) == octet0(b) && octet1(a) == octet1(b) && octet2(a) == octet2(b) && octet3(a)
            == octet3(b) ==> a == b,
{
    assert(a >> 24u32 <= 255) by (bit_vector);
    assert((a >> 16u32) & 0xffu32 <= 255) by (bit_vector);
    assert((a >> 8u32) & 0xffu32 <= 255) by (bit_vector);
    assert(a & 0xffu32 <= 255) by (bit_vector);
    assert((a >> 24u32 == b >> 24u32 && (a >> 16u32) & 0xffu32 == (b >> 16u32) & 0xffu32 && (a
        >> 8u32) & 0xffu32 == (b >> 8u32) & 0xffu32 && a & 0xffu32 == b & 0xffu32) ==> a == b)
        by (bit_vector);
}

/// The dotted-quad text of an address (`192.168.1.2`).
pub open spec fn ipv4_text(a: u32) -> Seq<char> {
    decimal(octet0(a) as nat) + seq!['.'] + decimal(octet1(a) as nat) + seq!['.'] + decimal(
        octet2(a) as nat,
    ) + seq!['.'] + decimal(octet3(a) as nat)
}

/// The name of the network namespace of the VM whose pair starts at
/// `host_addr`: `vm_` and the four octets in decimal, joined by `_`.
pub open spec fn netns_name(host_addr: u32) -> Seq<char> {
    seq!['v', 'm', '_'] + decimal(octet0(host_addr) as nat) + seq!['_'] + decimal(
        octet1(host_addr) as nat,
    ) + seq!['_'] + decimal(octet2(host_addr) as nat) + seq!['_'] + decimal(
        octet3(host_addr) as nat,
    )
}

/// A three-letter prefix followed by the four octets, each as three
/// zero-padded digits.
pub open spec fn padded_name(p0: char, p1: char, addr: u32) -> Seq<char> {
    seq![p0, p1, '_'] + pad3(octet0(addr) as nat) + pad3(octet1(addr) as nat) + pad3(
        octet2(addr) as nat,
    ) + pad3(octet3(addr) as nat)
}

/// The name of the host end of the veth pair (`vh_` and twelve digits).
pub open spec fn veth_host_name(host_addr: u32) -> Seq<char> {
    padded_name('v', 'h', host_addr)
}

/// The name of the VM end of the veth pair (`vv_` and twelve digits).
pub open spec fn veth_vm_name(vm_addr: u32) -> Seq<char> {
    padded_name('v', 'v', vm_addr)
}

/// The text of the error returned for a host address that is not the lower
/// address of its pair.
pub open spec fn host_addr_error_text(host_addr: u32) -> Seq<char> {
    "host_addr "@ + ipv4_text(host_addr)
        + " must be the lower address in a point-to-point (RFC 3021) subnet."@
}

/// A MAC address, as its six octets.
#[derive(Debug, Clone, Copy, PartialEq, Eq)]
pub struct MacAddr {
    pub octets: [u8; 6],
}

/// An upper-case hexadecimal digit.
pub open spec fn hex_digit(d: nat) -> char {
    if d < 10 {
        crate::text::digit_char(d)
    } else if d == 10 {
        'A'
    } else if d == 11 {
        'B'
    } else if d == 12 {
        'C'
    } else if d == 13 {
        'D'
    } else if d == 14 {
        'E'
    } else {
        'F'
    }
}

/// An octet as two upper-case hexadecimal digits.
pub open spec fn hex2(b: u8) -> Seq<char> {
    seq![hex_digit((b / 16) as nat), hex_digit((b % 16) as nat)]
}

/// The text of a MAC address: its six octets as upper-case hexadecimal
/// pairs separated by colons (`06:00:AC:10:00:02`).
pub open spec fn mac_text(o: Seq<u8>) -> Seq<char> {
    hex2(o[0]) + seq![':'] + hex2(o[1]) + seq![':'] + hex2(o[2]) + seq![':'] + hex2(o[3])
        + seq![':'] + hex2(o[4]) + seq![':'] + hex2(o[5])
}

/// `MacAddr6::to_string` of the `macaddr` crate: its `Display` writes the
/// six octets as `{:02X}` separated by colons.
#[verifier::external_body]
fn macaddr_text(octets: [u8; 6]) -> (r: String)
    ensures
        r@ == mac_text(octets@),
{
    macaddr::MacAddr6::from(octets).to_string()
}

impl MacAddr {
    /// The address as text: `06:00:AC:10:00:02`.
    pub fn to_string(&self) -> (r: String)
        ensures
            r@ == mac_text(self.octets@),
    {
        macaddr_text(self.octets)
    }
}

/// The error returned when a host address is the upper address of its
/// point-to-point pair.
#[derive(Debug, Clone, Copy, PartialEq, Eq)]
pub struct HostAddrError {
    pub host_addr: u32,
}

impl HostAddrError {
    /// The error's message.
    pub fn to_string(&self) -> (r: String)
        ensures
            r@ == host_addr_error_text(self.host_addr),
    {
        let mut out: Vec<char> = Vec::new();
        push_str(&mut out, "host_addr ");
        push_ipv4(&mut out, self.host_addr);
        push_str(&mut out, " must be the lower address in a point-to-point (RFC 3021) subnet.");
        assert(out@ =~= host_addr_error_text(self.host_addr));
        string_from_chars(out)
    }
}

/// Appends the dotted-quad text of `a`.
pub fn push_ipv4(out: &mut Vec<char>, a: u32)
    ensures
        final(out)@ == old(out)@ + ipv4_text(a),
{
    push_decimal(out, (a >> 24) as u128);
    out.push('.');
    push_decimal(out, ((a >> 16) & 0xff) as u128);
    out.push('.');
    push_decimal(out, ((a >> 8) & 0xff) as u128);
    out.push('.');
    push_decimal(out, (a & 0xff) as u128);
    assert(out@ =~= old(out)@ + ipv4_text(a));
}

/// The dotted-quad text of `a`.
pub fn ipv4_to_string(a: u32) -> (r: String)
    ensures
        r@ == ipv4_text(a),
{
    let mut out: Vec<char> = Vec::new();
    push_ipv4(&mut out, a);
    assert(out@ =~= ipv4_text(a));
    string_from_chars(out)
}

/// Ensures that the supplied host address is the lower address in a
/// point-to-point (RFC 3021) subnet, and returns the corresponding VM (upper)
/// address.
pub fn vm_addr_from_host_addr(host_addr: u32) -> (r: Result<u32, HostAddrError>)
    ensures
        octet3(host_addr) % 2 == 1 <==> r is Err,
        r matches Ok(vm_addr) ==> vm_addr == host_addr + 1,
        r matches Err(e) ==> e.host_addr == host_addr,
{
    if (host_addr & 0xff) % 2 == 1 {
        Err(HostAddrError { host_addr })
    } else {
        assert((host_addr & 0xffu32) % 2 == 0 ==> host_addr < u32::MAX) by (bit_vector);
        Ok(host_addr + 1)
    }
}

/// The guest address of a pair always differs from the host address only in
/// the last octet, which goes up by one.
pub proof fn lemma_vm_addr_octets(host_addr: u32)
    requires
        octet3(host_addr) % 2 == 0,
    ensures
        host_addr < u32::MAX,
        octet0((host_addr + 1) as u32) == octet0(host_addr),
        octet1((host_addr + 1) as u32) == octet1(host_addr),
        octet2((host_addr + 1) as u32) == octet2(host_addr),
        octet3((host_addr + 1) as u32) == octet3(host_addr) + 1,
{
    let a = host_addr;
    assert((a & 0xffu32) % 2 == 0 ==> a < u32::MAX) by (bit_vector);
    let b = (a + 1) as u32;
    assert((a & 0xffu32) % 2 == 0 && b == a + 1 ==> (b >> 24u32 == a >> 24u32 && (b >> 16u32)
        & 0xffu32 == (a >> 16u32) & 0xffu32 && (b >> 8u32) & 0xffu32 == (a >> 8u32) & 0xffu32 && b
        & 0xffu32 == (a & 0xffu32) + 1)) by (bit_vector);
}

/// The name of the network namespace of the VM whose pair starts at
/// `host_addr`.
pub fn netns_name_from_host_addr(host_addr: u32) -> (r: String)
    ensures
        r@ == netns_name(host_addr),
{
    let mut out: Vec<char> = Vec::new();
    out.push('v');
    out.push('m');
    out.push('_');
    push_decimal(&mut out, (host_addr >> 24) as u128);
    out.push('_');
    push_decimal(&mut out, ((host_addr >> 16) & 0xff) as u128);
    out.push('_');
    push_decimal(&mut out, ((host_addr >> 8) & 0xff) as u128);
    out.push('_');
    push_decimal(&mut out, (host_addr & 0xff) as u128);
    assert(out@ =~= netns_name(host_addr));
    string_from_chars(out)
}

fn padded_name_string(p0: char, p1: char, addr: u32) -> (r: String)
    ensures
        r@ == padded_name(p0, p1, addr),
{
    proof {
        lemma_octets(addr, addr);
    }
    let mut out: Vec<char> = Vec::new();
    out.push(p0);
    out.push(p1);
    out.push('_');
    push_pad3(&mut out, (addr >> 24) as u128);
    push_pad3(&mut out, ((addr >> 16) & 0xff) as u128);
    push_pad3(&mut out, ((addr >> 8) & 0xff) as u128);
    push_pad3(&mut out, (addr & 0xff) as u128);
    assert(out@ =~= padded_name(p0, p1, addr));
    string_from_chars(out)
}

/// The name of the host end of the veth pair of the VM whose pair starts at
/// `host_addr`.
pub fn veth_host_name_from_host_addr(host_addr: u32) -> (r: String)
    ensures
        r@ == veth_host_name(host_addr),
{
    padded_name_string('v', 'h', host_addr)
}

/// The name of the VM end of the veth pair of the VM at `vm_addr`.
pub fn veth_vm_name_from_vm_addr(vm_addr: u32) -> (r: String)
    ensures
        r@ == veth_vm_name(vm_addr),
{
    padded_name_string('v', 'v', vm_addr)
}

/// The names of both ends of a veth pair: the host end, then the VM end.
pub fn veth_names_from_addr_pair(host_addr: u32, vm_addr: u32) -> (r: (String, String))
    ensures
        r.0@ == veth_host_name(host_addr),
        r.1@ == veth_vm_name(vm_addr),
{
    (veth_host_name_from_host_addr(host_addr), veth_vm_name_from_vm_addr(vm_addr))
}

/// Converts an IPv4 address to a MAC address in the Firecracker format,
/// `06:00:` followed by the four octets of the address.
pub fn ipv4_to_mac(ip: u32) -> (r: MacAddr)
    ensures
        r.octets@ == seq![
            6u8,
            0u8,
            octet0(ip) as u8,
            octet1(ip) as u8,
            octet2(ip) as u8,
            octet3(ip) as u8,
        ],
{
    proof {
        lemma_octets(ip, ip);
    }
    let r = MacAddr {
        octets: [
            6u8,
            0u8,
            (ip >> 24) as u8,
            ((ip >> 16) & 0xff) as u8,
            ((ip >> 8) & 0xff) as u8,
            (ip & 0xff) as u8,
        ],
    };
    assert(r.octets@ =~= seq![
        6u8,
        0u8,
        octet0(ip) as u8,
        octet1(ip) as u8,
        octet2(ip) as u8,
        octet3(ip) as u8,
    ]);
    r
}

/// A run of digits followed by a separator that is not a digit can be read
/// back: equal texts of that shape have equal runs and equal remainders.
proof fn lemma_split_at_separator(dx: Seq<char>, dy: Seq<char>, sep: char, r1: Seq<char>, r2: Seq<char>)
    requires
        !is_digit(sep),
        all_digits(dx),
        all_digits(dy),
        dx + seq![sep] + r1 == dy + seq![sep] + r2,
    ensures
        dx == dy,
        r1 == r2,
{
    let s = dx + seq![sep] + r1;
    let t = dy + seq![sep] + r2;
    if dx.len() < dy.len() {
        assert(s[dx.len() as int] == sep);
        assert(t[dx.len() as int] == dy[dx.len() as int]);
        assert(false);
    }
    if dy.len() < dx.len() {
        assert(t[dy.len() as int] == sep);
        assert(s[dy.len() as int] == dx[dy.len() as int]);
        assert(false);
    }
    assert(dx =~= s.subrange(0, dx.len() as int));
    assert(dy =~= t.subrange(0, dy.len() as int));
    assert(r1 =~= s.subrange(dx.len() as int + 1, s.len() as int));
    assert(r2 =~= t.subrange(dy.len() as int + 1, t.len() as int));
}

/// Four digit runs joined by a separator that is not a digit, after a
/// common prefix, determine the runs.
proof fn lemma_joined_runs(
    sep: char,
    pre: Seq<char>,
    d0: Seq<char>,
    d1: Seq<char>,
    d2: Seq<char>,
    d3: Seq<char>,
    e0: Seq<char>,
    e1: Seq<char>,
    e2: Seq<char>,
    e3: Seq<char>,
)
    requires
        !is_digit(sep),
        all_digits(d0),
        all_digits(d1),
        all_digits(d2),
        all_digits(e0),
        all_digits(e1),
        all_digits(e2),
        pre + d0 + seq![sep] + d1 + seq![sep] + d2 + seq![sep] + d3 == pre + e0 + seq![sep] + e1
            + seq![sep] + e2 + seq![sep] + e3,
    ensures
        d0 == e0,
        d1 == e1,
        d2 == e2,
        d3 == e3,
{
    let u = seq![sep];
    let x = pre + d0 + u + d1 + u + d2 + u + d3;
    let y = pre + e0 + u + e1 + u + e2 + u + e3;
    let x2 = d2 + u + d3;
    let y2 = e2 + u + e3;
    let x1 = d1 + u + x2;
    let y1 = e1 + u + y2;
    let x0 = d0 + u + x1;
    let y0 = e0 + u + y1;
    assert(x =~= pre + x0);
    assert(y =~= pre + y0);
    assert(x0 =~= x.subrange(pre.len() as int, x.len() as int));
    assert(y0 =~= y.subrange(pre.len() as int, y.len() as int));
    lemma_split_at_separator(d0, e0, sep, x1, y1);
    lemma_split_at_separator(d1, e1, sep, x2, y2);
    lemma_split_at_separator(d2, e2, sep, d3, e3);
}

/// Distinct VM pairs get distinct network namespaces: the namespace name
/// determines the host address.
pub proof fn lemma_netns_name_injective(a: u32, b: u32)
    requires
        netns_name(a) == netns_name(b),
    ensures
        a == b,
{
    lemma_decimal_digits(octet0(a) as nat);
    lemma_decimal_digits(octet1(a) as nat);
    lemma_decimal_digits(octet2(a) as nat);
    lemma_decimal_digits(octet0(b) as nat);
    lemma_decimal_digits(octet1(b) as nat);
    lemma_decimal_digits(octet2(b) as nat);
    assert(!is_digit('_'));
    lemma_joined_runs(
        '_',
        seq!['v', 'm', '_'],
        decimal(octet0(a) as nat),
        decimal(octet1(a) as nat),
        decimal(octet2(a) as nat),
        decimal(octet3(a) as nat),
        decimal(octet0(b) as nat),
        decimal(octet1(b) as nat),
        decimal(octet2(b) as nat),
        decimal(octet3(b) as nat),
    );
    lemma_decimal_injective(octet0(a) as nat, octet0(b) as nat);
    lemma_decimal_injective(octet1(a) as nat, octet1(b) as nat);
    lemma_decimal_injective(octet2(a) as nat, octet2(b) as nat);
    lemma_decimal_injective(octet3(a) as nat, octet3(b) as nat);
    lemma_octets(a, b);
}

/// Distinct addresses have distinct dotted-quad texts.
pub proof fn lemma_ipv4_text_injective(a: u32, b: u32)
    requires
        ipv4_text(a) == ipv4_text(b),
    ensures
        a == b,
{
    lemma_decimal_digits(octet0(a) as nat);
    lemma_decimal_digits(octet1(a) as nat);
    lemma_decimal_digits(octet2(a) as nat);
    lemma_decimal_digits(octet0(b) as nat);
    lemma_decimal_digits(octet1(b) as nat);
    lemma_decimal_digits(octet2(b) as nat);
    assert(!is_digit('.'));
    let e = Seq::<char>::empty();
    assert(ipv4_text(a) =~= e + decimal(octet0(a) as nat) + seq!['.'] + decimal(octet1(a) as nat)
        + seq!['.'] + decimal(octet2(a) as nat) + seq!['.'] + decimal(octet3(a) as nat));
    assert(ipv4_text(b) =~= e + decimal(octet0(b) as nat) + seq!['.'] + decimal(octet1(b) as nat)
        + seq!['.'] + decimal(octet2(b) as nat) + seq!['.'] + decimal(octet3(b) as nat));
    lemma_joined_runs(
        '.',
        e,
        decimal(octet0(a) as nat),
        decimal(octet1(a) as nat),
        decimal(octet2(a) as nat),
        decimal(octet3(a) as nat),
        decimal(octet0(b) as nat),
        decimal(octet1(b) as nat),
        decimal(octet2(b) as nat),
        decimal(octet3(b) as nat),
    );
    lemma_decimal_injective(octet0(a) as nat, octet0(b) as nat);
    lemma_decimal_injective(octet1(a) as nat, octet1(b) as nat);
    lemma_decimal_injective(octet2(a) as nat, octet2(b) as nat);
    lemma_decimal_injective(octet3(a) as nat, octet3(b) as nat);
    lemma_octets(a, b);
}

/// Four three-character blocks after a three-character prefix determine the
/// blocks.
proof fn lemma_fixed_blocks(
    pre: Seq<char>,
    d0: Seq<char>,
    d1: Seq<char>,
    d2: Seq<char>,
    d3: Seq<char>,
    e0: Seq<char>,
    e1: Seq<char>,
    e2: Seq<char>,
    e3: Seq<char>,
)
    requires
        pre.len() == 3,
        d0.len() == 3,
        d1.len() == 3,
        d2.len() == 3,
        d3.len() == 3,
        e0.len() == 3,
        e1.len() == 3,
        e2.len() == 3,
        e3.len() == 3,
    ensures
        (pre + d0 + d1 + d2 + d3).len() == 15,
        pre + d0 + d1 + d2 + d3 == pre + e0 + e1 + e2 + e3 ==> d0 == e0 && d1 == e1 && d2 == e2
            && d3 == e3,
{
    let x = pre + d0 + d1 + d2 + d3;
    let y = pre + e0 + e1 + e2 + e3;
    if x == y {
        assert(d0 =~= x.subrange(3, 6));
        assert(e0 =~= y.subrange(3, 6));
        assert(d1 =~= x.subrange(6, 9));
        assert(e1 =~= y.subrange(6, 9));
        assert(d2 =~= x.subrange(9, 12));
        assert(e2 =~= y.subrange(9, 12));
        assert(d3 =~= x.subrange(12, 15));
        assert(e3 =~= y.subrange(12, 15));
    }
}

/// Veth interface names are 15 characters long, the most a Linux interface
/// name can hold, and distinct addresses get distinct names.
pub proof fn lemma_padded_name(p0: char, p1: char, a: u32, b: u32)
    ensures
        padded_name(p0, p1, a).len() == 15,
        padded_name(p0, p1, a) == padded_name(p0, p1, b) ==> a == b,
{
    lemma_octets(a, b);
    lemma_octets(b, a);
    lemma_fixed_blocks(
        seq![p0, p1, '_'],
        pad3(octet0(a) as nat),
        pad3(octet1(a) as nat),
        pad3(octet2(a) as nat),
        pad3(octet3(a) as nat),
        pad3(octet0(b) as nat),
        pad3(octet1(b) as nat),
        pad3(octet2(b) as nat),
        pad3(octet3(b) as nat),
    );
    if padded_name(p0, p1, a) == padded_name(p0, p1, b) {
        lemma_pad3_injective(octet0(a) as nat, octet0(b) as nat);
        lemma_pad3_injective(octet1(a) as nat, octet1(b) as nat);
        lemma_pad3_injective(octet2(a) as nat, octet2(b) as nat);
        lemma_pad3_injective(octet3(a) as nat, octet3(b) as nat);
    }
}

/// The host end and the VM end of a veth pair never share a name.
pub proof fn lemma_veth_names_distinct(host_addr: u32, vm_addr: u32)
    ensures
        veth_host_name(host_addr) != veth_vm_name(vm_addr),
{
    assert(veth_host_name(host_addr)[1] == 'h');
    assert(veth_vm_name(vm_addr)[1] == 'v');
}

} // verus!
