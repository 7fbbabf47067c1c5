//! The commands that build a VM's network: its namespace, the veth pair to
//! the host, the default route, the TAP device the hypervisor attaches to,
//! and the forwarding rules inside the namespace. The host runs each
//! command; these functions say which command comes next, given how the
//! last one went (a command that fails because its object already exists is
//! often fine).

use crate::firecracker::string_of;
use crate::network_names::{ipv4_text, ipv4_to_mac, ipv4_to_string, mac_text, veth_host_name, veth_host_name_from_host_addr, veth_vm_name, veth_vm_name_from_vm_addr, vm_addr_from_host_addr, HostAddrError, octet3};
use crate::snapshot_cache::names_of;
use crate::teardown::joined;
use crate::text::{decimal, push_decimal, push_str, string_from_chars};
use crate::wireguard::{contains_text, text_contains};
use vstd::prelude::*;

verus! {

/// `args` run inside network namespace `netns`.
pub open spec fn in_netns(netns: Seq<char>, args: Seq<Seq<char>>) -> Seq<Seq<char>> {
    seq!["ip"@, "netns"@, "exec"@, netns] + args
}

/// The texts of string slices.
pub open spec fn strs_view(parts: Seq<&str>) -> Seq<Seq<char>> {
    parts.map_values(|p: &str| p@)
}

/// The argument vector of the given words.
fn argv(parts: Vec<&str>) -> (r: Vec<String>)
    ensures
        names_of(r@) == strs_view(parts@),
{
    let mut out: Vec<String> = Vec::new();
    let mut i: usize = 0;
    while i < parts.len()
        invariant
            i <= parts@.len(),
            names_of(out@) == strs_view(parts@.take(i as int)),
        decreases parts@.len() - i,
    {
        let ghost before = names_of(out@);
        out.push(string_of(parts[i]));
        proof {
            assert(names_of(out@) =~= before.push(parts@[i as int]@));
            assert(strs_view(parts@.take(i + 1)) =~= strs_view(parts@.take(i as int)).push(
                parts@[i as int]@,
            ));
        }
        i = i + 1;
    }
    assert(parts@.take(parts@.len() as int) =~= parts@);
    out
}

/// `args` prefixed to run inside `netns`.
fn netns_args(netns: &str, args: Vec<String>) -> (r: Vec<String>)
    ensures
        names_of(r@) == in_netns(netns@, names_of(args@)),
{
    let mut out = argv(vec!["ip", "netns", "exec", netns]);
    let ghost prefix = out@;
    let ghost rest = args@;
    let mut args = args;
    out.append(&mut args);
    proof {
        reveal_strlit("ip");
        reveal_strlit("netns");
        reveal_strlit("exec");
        assert(names_of(out@) =~= names_of(prefix) + names_of(rest));
        assert(strs_view(seq!["ip", "netns", "exec", netns]) =~= seq!["ip"@, "netns"@, "exec"@, netns@]);
    }
    out
}

/// The decimal text of a signed number.
pub open spec fn signed_decimal(n: i32) -> Seq<char> {
    if n < 0 {
        seq!['-'] + decimal((-n) as nat)
    } else {
        decimal(n as nat)
    }
}

/// The message of a command that exited unsuccessfully: the command line,
/// its exit code (-1 when it has none) and what it wrote to standard error.
pub open spec fn command_failed_text(args: Seq<Seq<char>>, code: i32, stderr: Seq<char>) -> Seq<char> {
    "Network Manager command failed. Command: '"@ + joined(args, " "@) + "'; Exit Code: "@
        + signed_decimal(code) + "; stderr: "@ + stderr
}

/// The error message of a command that exited unsuccessfully.
pub fn command_failed_message(args: &Vec<String>, code: i32, stderr: &str) -> (r: String)
    ensures
        r@ == command_failed_text(names_of(args@), code, stderr@),
{
    let mut out: Vec<char> = Vec::new();
    push_str(&mut out, "Network Manager command failed. Command: '");
    let line = crate::teardown::join_texts(args, " ");
    push_str(&mut out, line.as_str());
    push_str(&mut out, "'; Exit Code: ");
    if code < 0 {
        push_str(&mut out, "-");
        let magnitude: i64 = -(code as i64);
        push_decimal(&mut out, magnitude as u128);
    } else {
        push_decimal(&mut out, code as u128);
    }
    push_str(&mut out, "; stderr: ");
    push_str(&mut out, stderr);
    proof {
        reveal_strlit(" ");
        reveal_strlit("-");
    }
    assert(out@ =~= command_failed_text(names_of(args@), code, stderr@));
    string_from_chars(out)
}

/// How the last command went.
#[derive(Debug)]
pub enum NetEvent {
    Succeeded,
    /// It failed, with this message.
    Failed(String),
}

/// The message of a failed command (empty for one that succeeded).
pub open spec fn failure_text(e: NetEvent) -> Seq<char> {
    match e {
        NetEvent::Failed(t) => t@,
        NetEvent::Succeeded => Seq::empty(),
    }
}

/// What the host does next.
#[derive(Debug)]
pub enum NetAction {
    /// Run the command; report how it went.
    Run(Vec<String>),
    /// Run the command, whether or not it succeeds; report that it ran.
    RunIgnoringFailure(Vec<String>),
    /// Done: success, or the message of the failure.
    Finish(Result<(), String>),
}

/// An action, with its command as texts.
pub enum NetActionView {
    Run(Seq<Seq<char>>),
    RunIgnoringFailure(Seq<Seq<char>>),
    FinishOk,
    FinishErr(Seq<char>),
}

/// The view of an action.
pub open spec fn net_action_view(a: NetAction) -> NetActionView {
    match a {
        NetAction::Run(args) => NetActionView::Run(names_of(args@)),
        NetAction::RunIgnoringFailure(args) => NetActionView::RunIgnoringFailure(names_of(args@)),
        NetAction::Finish(Ok(())) => NetActionView::FinishOk,
        NetAction::Finish(Err(m)) => NetActionView::FinishErr(m@),
    }
}

/// The marker of an object that already exists in a command's failure.
pub open spec fn already_exists(err: Seq<char>) -> bool {
    contains_text(err, "File exists"@)
}

fn is_already_exists(event: &NetEvent) -> (r: bool)
    ensures
        r == (event is Failed && already_exists(failure_text(*event))),
{
    match event {
        NetEvent::Failed(t) => text_contains(t.as_str(), "File exists"),
        NetEvent::Succeeded => false,
    }
}

fn failed(event: NetEvent) -> (r: NetAction)
    ensures
        net_action_view(r) == NetActionView::FinishErr(failure_text(event)),
{
    match event {
        NetEvent::Failed(t) => NetAction::Finish(Err(t)),
        NetEvent::Succeeded => NetAction::Finish(Err(String::new())),
    }
}

/// Where the creation of a namespace stands.
#[derive(Debug, Clone, Copy, PartialEq, Eq)]
pub enum NetnsAddStage {
    /// Adding the namespace.
    Add,
    /// Bringing its loopback device up.
    LoopbackUp,
    Finished,
}

/// Creates network namespace `netns` (an existing one is reused) and
/// brings its loopback device up.
pub struct NetnsAdd {
    netns: String,
    stage: NetnsAddStage,
}

impl View for NetnsAdd {
    type V = (Seq<char>, NetnsAddStage);

    closed spec fn view(&self) -> (Seq<char>, NetnsAddStage) {
        (self.netns@, self.stage)
    }
}

/// The command that adds a namespace.
pub open spec fn netns_add_args(netns: Seq<char>) -> Seq<Seq<char>> {
    seq!["ip"@, "netns"@, "add"@, netns]
}

/// The command that brings a namespace's loopback device up.
pub open spec fn loopback_up_args(netns: Seq<char>) -> Seq<Seq<char>> {
    in_netns(netns, seq!["ip"@, "link"@, "set"@, "lo"@, "up"@])
}

/// The next stage and action of a namespace creation after the event
/// (`ok`, or a failure with message `err`).
pub open spec fn netns_add_next(netns: Seq<char>, stage: NetnsAddStage, ok: bool, err: Seq<char>) -> (NetnsAddStage, NetActionView) {
    match stage {
        NetnsAddStage::Add => if ok || already_exists(err) {
            (NetnsAddStage::LoopbackUp, NetActionView::Run(loopback_up_args(netns)))
        } else {
            (NetnsAddStage::Finished, NetActionView::FinishErr(err))
        },
        NetnsAddStage::LoopbackUp => if ok {
            (NetnsAddStage::Finished, NetActionView::FinishOk)
        } else {
            (NetnsAddStage::Finished, NetActionView::FinishErr(err))
        },
        NetnsAddStage::Finished => (NetnsAddStage::Finished, NetActionView::FinishErr(err)),
    }
}

impl NetnsAdd {
    /// Starts creating namespace `netns`: the first command adds it.
    pub fn start(netns: &str) -> (r: (Self, NetAction))
        ensures
            r.0@ == (netns@, NetnsAddStage::Add),
            net_action_view(r.1) == NetActionView::Run(netns_add_args(netns@)),
    {
        let args = argv(vec!["ip", "netns", "add", netns]);
        proof {
            reveal_strlit("ip");
            reveal_strlit("netns");
            reveal_strlit("add");
            assert(strs_view(seq!["ip", "netns", "add", netns]) =~= netns_add_args(netns@));
        }
        (NetnsAdd { netns: string_of(netns), stage: NetnsAddStage::Add }, NetAction::Run(args))
    }

    /// Whether the creation is over.
    pub fn is_finished(&self) -> (r: bool)
        ensures
            r == (self@.1 == NetnsAddStage::Finished),
    {
        match self.stage {
            NetnsAddStage::Finished => true,
            _ => false,
        }
    }

    /// Takes how the last command went and returns the next action.
    pub fn step(&mut self, event: NetEvent) -> (r: NetAction)
        requires
            old(self)@.1 != NetnsAddStage::Finished,
        ensures
            final(self)@.0 == old(self)@.0,
            (final(self)@.1, net_action_view(r)) == netns_add_next(
                old(self)@.0,
                old(self)@.1,
                event is Succeeded,
                failure_text(event),
            ),
    {
        let exists = is_already_exists(&event);
        let succeeded = match &event {
            NetEvent::Succeeded => true,
            NetEvent::Failed(_) => false,
        };
        match self.stage {
            NetnsAddStage::Add => {
                if succeeded || exists {
                    self.stage = NetnsAddStage::LoopbackUp;
                    let up = argv(vec!["ip", "link", "set", "lo", "up"]);
                    proof {
                        reveal_strlit("ip");
                        reveal_strlit("link");
                        reveal_strlit("set");
                        reveal_strlit("lo");
                        reveal_strlit("up");
                        assert(strs_view(seq!["ip", "link", "set", "lo", "up"]) =~= seq!["ip"@, "link"@, "set"@, "lo"@, "up"@]);
                    }
                    NetAction::Run(netns_args(self.netns.as_str(), up))
                } else {
                    self.stage = NetnsAddStage::Finished;
                    failed(event)
                }
            },
            _ => {
                self.stage = NetnsAddStage::Finished;
                match event {
                    NetEvent::Succeeded => NetAction::Finish(Ok(())),
                    NetEvent::Failed(t) => NetAction::Finish(Err(t)),
                }
            },
        }
    }
}

/// The command that adds the namespace's default route through `via`.
pub open spec fn default_route_args(netns: Seq<char>, via: u32) -> Seq<Seq<char>> {
    in_netns(netns, seq!["ip"@, "route"@, "add"@, "default"@, "via"@, ipv4_text(via)])
}

/// The command that adds the default route of namespace `netns` through
/// the host end of its veth pair.
pub fn default_route_command(netns: &str, via: u32) -> (r: Vec<String>)
    ensures
        names_of(r@) == default_route_args(netns@, via),
{
    let via_string = ipv4_to_string(via);
    let via_text = via_string.as_str();
    let args = argv(vec!["ip", "route", "add", "default", "via", via_text]);
    proof {
        reveal_strlit("ip");
        reveal_strlit("route");
        reveal_strlit("add");
        reveal_strlit("default");
        reveal_strlit("via");
        assert(strs_view(seq!["ip", "route", "add", "default", "via", via_text]) =~= seq!["ip"@, "route"@, "add"@, "default"@, "via"@, ipv4_text(via)]);
    }
    netns_args(netns, args)
}

/// The outcome of adding a route, or another object, that may exist
/// already: success when the command succeeded or failed because the object
/// exists, else its failure.
pub fn tolerate_existing(event: NetEvent) -> (r: Result<(), String>)
    ensures
        r is Ok <==> (event is Succeeded || already_exists(failure_text(event))),
        r matches Err(m) ==> m@ == failure_text(event),
{
    if is_already_exists(&event) {
        return Ok(());
    }
    match event {
        NetEvent::Succeeded => Ok(()),
        NetEvent::Failed(t) => Err(t),
    }
}

/// The views of argument vectors.
pub open spec fn argvs_view(v: Seq<Vec<String>>) -> Seq<Seq<Seq<char>>> {
    v.map_values(|a: Vec<String>| names_of(a@))
}

/// The commands, run inside the namespace, that forward the VM's traffic:
/// IPv4 and IPv6 DNAT of what arrives on the VM end of the veth pair to the
/// guest, masquerading of what leaves through it, forwarding accepted and
/// enabled for both families.
pub open spec fn forwarding_args(netns: Seq<char>, veth_vm: Seq<char>, guest_v4: u32, guest_v6: Seq<char>) -> Seq<Seq<Seq<char>>> {
    seq![
        in_netns(netns, seq!["iptables"@, "-t"@, "nat"@, "-A"@, "PREROUTING"@, "-i"@, veth_vm, "-j"@, "DNAT"@, "--to"@, ipv4_text(guest_v4)]),
        in_netns(netns, seq!["iptables"@, "-t"@, "nat"@, "-A"@, "POSTROUTING"@, "-o"@, veth_vm, "-j"@, "MASQUERADE"@]),
        in_netns(netns, seq!["ip6tables"@, "-t"@, "nat"@, "-A"@, "PREROUTING"@, "-i"@, veth_vm, "-j"@, "DNAT"@, "--to-destination"@, guest_v6]),
        in_netns(netns, seq!["ip6tables"@, "-t"@, "nat"@, "-A"@, "POSTROUTING"@, "-o"@, veth_vm, "-j"@, "MASQUERADE"@]),
        in_netns(netns, seq!["iptables"@, "-P"@, "FORWARD"@, "ACCEPT"@]),
        in_netns(netns, seq!["sysctl"@, "-w"@, "net.ipv4.ip_forward=1"@]),
        in_netns(netns, seq!["ip6tables"@, "-P"@, "FORWARD"@, "ACCEPT"@]),
        in_netns(netns, seq!["sysctl"@, "-w"@, "net.ipv6.conf.all.forwarding=1"@]),
    ]
}

fn push_netns_command(out: &mut Vec<Vec<String>>, netns: &str, parts: Vec<&str>)
    ensures
        argvs_view(final(out)@) == argvs_view(old(out)@).push(in_netns(netns@, strs_view(parts@))),
{
    let args = netns_args(netns, argv(parts));
    out.push(args);
    assert(argvs_view(out@) =~= argvs_view(old(out)@).push(in_netns(netns@, strs_view(parts@))));
}

/// The forwarding commands of a VM's namespace (all run; the first failure,
/// in this order, is the setup's failure).
pub fn packet_forwarding_commands(netns: &str, veth_vm_name: &str, guest_v4: u32, guest_v6: &str) -> (r: Vec<Vec<String>>)
    ensures
        argvs_view(r@) == forwarding_args(netns@, veth_vm_name@, guest_v4, guest_v6@),
{
    let v4_string = ipv4_to_string(guest_v4);
    let v4 = v4_string.as_str();
    let mut out: Vec<Vec<String>> = Vec::new();
    push_netns_command(&mut out, netns, vec!["iptables", "-t", "nat", "-A", "PREROUTING", "-i", veth_vm_name, "-j", "DNAT", "--to", v4]);
    push_netns_command(&mut out, netns, vec!["iptables", "-t", "nat", "-A", "POSTROUTING", "-o", veth_vm_name, "-j", "MASQUERADE"]);
    push_netns_command(&mut out, netns, vec!["ip6tables", "-t", "nat", "-A", "PREROUTING", "-i", veth_vm_name, "-j", "DNAT", "--to-destination", guest_v6]);
    push_netns_command(&mut out, netns, vec!["ip6tables", "-t", "nat", "-A", "POSTROUTING", "-o", veth_vm_name, "-j", "MASQUERADE"]);
    push_netns_command(&mut out, netns, vec!["iptables", "-P", "FORWARD", "ACCEPT"]);
    push_netns_command(&mut out, netns, vec!["sysctl", "-w", "net.ipv4.ip_forward=1"]);
    push_netns_command(&mut out, netns, vec!["ip6tables", "-P", "FORWARD", "ACCEPT"]);
    push_netns_command(&mut out, netns, vec!["sysctl", "-w", "net.ipv6.conf.all.forwarding=1"]);
    proof {
        reveal_strlit("--to");
        reveal_strlit("--to-destination");
        reveal_strlit("-A");
        reveal_strlit("-P");
        reveal_strlit("-i");
        reveal_strlit("-j");
        reveal_strlit("-o");
        reveal_strlit("-t");
        reveal_strlit("-w");
        reveal_strlit("ACCEPT");
        reveal_strlit("DNAT");
        reveal_strlit("FORWARD");
        reveal_strlit("MASQUERADE");
        reveal_strlit("POSTROUTING");
        reveal_strlit("PREROUTING");
        reveal_strlit("ip6tables");
        reveal_strlit("iptables");
        reveal_strlit("nat");
        reveal_strlit("net.ipv4.ip_forward=1");
        reveal_strlit("net.ipv6.conf.all.forwarding=1");
        reveal_strlit("sysctl");
        assert(strs_view(seq!["iptables", "-t", "nat", "-A", "PREROUTING", "-i", veth_vm_name, "-j", "DNAT", "--to", v4]) =~= seq!["iptables"@, "-t"@, "nat"@, "-A"@, "PREROUTING"@, "-i"@, veth_vm_name@, "-j"@, "DNAT"@, "--to"@, ipv4_text(guest_v4)]);
        assert(strs_view(seq!["iptables", "-t", "nat", "-A", "POSTROUTING", "-o", veth_vm_name, "-j", "MASQUERADE"]) =~= seq!["iptables"@, "-t"@, "nat"@, "-A"@, "POSTROUTING"@, "-o"@, veth_vm_name@, "-j"@, "MASQUERADE"@]);
        assert(strs_view(seq!["ip6tables", "-t", "nat", "-A", "PREROUTING", "-i", veth_vm_name, "-j", "DNAT", "--to-destination", guest_v6]) =~= seq!["ip6tables"@, "-t"@, "nat"@, "-A"@, "PREROUTING"@, "-i"@, veth_vm_name@, "-j"@, "DNAT"@, "--to-destination"@, guest_v6@]);
        assert(strs_view(seq!["ip6tables", "-t", "nat", "-A", "POSTROUTING", "-o", veth_vm_name, "-j", "MASQUERADE"]) =~= seq!["ip6tables"@, "-t"@, "nat"@, "-A"@, "POSTROUTING"@, "-o"@, veth_vm_name@, "-j"@, "MASQUERADE"@]);
        assert(strs_view(seq!["iptables", "-P", "FORWARD", "ACCEPT"]) =~= seq!["iptables"@, "-P"@, "FORWARD"@, "ACCEPT"@]);
        assert(strs_view(seq!["sysctl", "-w", "net.ipv4.ip_forward=1"]) =~= seq!["sysctl"@, "-w"@, "net.ipv4.ip_forward=1"@]);
        assert(strs_view(seq!["ip6tables", "-P", "FORWARD", "ACCEPT"]) =~= seq!["ip6tables"@, "-P"@, "FORWARD"@, "ACCEPT"@]);
        assert(strs_view(seq!["sysctl", "-w", "net.ipv6.conf.all.forwarding=1"]) =~= seq!["sysctl"@, "-w"@, "net.ipv6.conf.all.forwarding=1"@]);
        assert(argvs_view(out@) =~= forwarding_args(netns@, veth_vm_name@, guest_v4, guest_v6@));
    }
    out
}

/// The command that creates the veth pair, its VM end in the namespace.
pub open spec fn veth_create_args(host: Seq<char>, vm: Seq<char>, netns_name: Seq<char>) -> Seq<Seq<char>> {
    seq!["ip"@, "link"@, "add"@, host, "type"@, "veth"@, "peer"@, "name"@, vm, "netns"@, netns_name]
}

fn veth_create_cmd(host: &str, vm: &str, netns_name: &str) -> (r: Vec<String>)
    ensures
        names_of(r@) == veth_create_args(host@, vm@, netns_name@),
{
    let args = argv(vec!["ip", "link", "add", host, "type", "veth", "peer", "name", vm, "netns", netns_name]);
    proof {
        reveal_strlit("add");
        reveal_strlit("ip");
        reveal_strlit("link");
        reveal_strlit("name");
        reveal_strlit("netns");
        reveal_strlit("peer");
        reveal_strlit("type");
        reveal_strlit("veth");
        assert(strs_view(seq!["ip", "link", "add", host, "type", "veth", "peer", "name", vm, "netns", netns_name]) =~= seq!["ip"@, "link"@, "add"@, host@, "type"@, "veth"@, "peer"@, "name"@, vm@, "netns"@, netns_name@]);
    }
    args
}

/// The command that checks that a device exists in the namespace.
pub open spec fn link_show_args(netns: Seq<char>, device: Seq<char>) -> Seq<Seq<char>> {
    in_netns(netns, seq!["ip"@, "link"@, "show"@, device])
}

fn link_show_cmd(netns: &str, device: &str) -> (r: Vec<String>)
    ensures
        names_of(r@) == link_show_args(netns@, device@),
{
    let args = argv(vec!["ip", "link", "show", device]);
    proof {
        reveal_strlit("ip");
        reveal_strlit("link");
        reveal_strlit("show");
        assert(strs_view(seq!["ip", "link", "show", device]) =~= seq!["ip"@, "link"@, "show"@, device@]);
    }
    netns_args(netns, args)
}

/// The command that removes the host end's addresses.
pub open spec fn flush_host_args(host: Seq<char>) -> Seq<Seq<char>> {
    seq!["ip"@, "addr"@, "flush"@, "dev"@, host]
}

fn flush_host_cmd(host: &str) -> (r: Vec<String>)
    ensures
        names_of(r@) == flush_host_args(host@),
{
    let args = argv(vec!["ip", "addr", "flush", "dev", host]);
    proof {
        reveal_strlit("addr");
        reveal_strlit("dev");
        reveal_strlit("flush");
        reveal_strlit("ip");
        assert(strs_view(seq!["ip", "addr", "flush", "dev", host]) =~= seq!["ip"@, "addr"@, "flush"@, "dev"@, host@]);
    }
    args
}

/// The command that removes the addresses of a device in the namespace.
pub open spec fn netns_flush_args(netns: Seq<char>, device: Seq<char>) -> Seq<Seq<char>> {
    in_netns(netns, seq!["ip"@, "addr"@, "flush"@, "dev"@, device])
}

fn netns_flush_cmd(netns: &str, device: &str) -> (r: Vec<String>)
    ensures
        names_of(r@) == netns_flush_args(netns@, device@),
{
    let args = argv(vec!["ip", "addr", "flush", "dev", device]);
    proof {
        reveal_strlit("addr");
        reveal_strlit("dev");
        reveal_strlit("flush");
        reveal_strlit("ip");
        assert(strs_view(seq!["ip", "addr", "flush", "dev", device]) =~= seq!["ip"@, "addr"@, "flush"@, "dev"@, device@]);
    }
    netns_args(netns, args)
}

/// The command that deletes the host end.
pub open spec fn del_host_args(host: Seq<char>) -> Seq<Seq<char>> {
    seq!["ip"@, "link"@, "del"@, host]
}

fn del_host_cmd(host: &str) -> (r: Vec<String>)
    ensures
        names_of(r@) == del_host_args(host@),
{
    let args = argv(vec!["ip", "link", "del", host]);
    proof {
        reveal_strlit("del");
        reveal_strlit("ip");
        reveal_strlit("link");
        assert(strs_view(seq!["ip", "link", "del", host]) =~= seq!["ip"@, "link"@, "del"@, host@]);
    }
    args
}

/// The command that gives the host end its address.
pub open spec fn host_addr_args(cidr: Seq<char>, host: Seq<char>) -> Seq<Seq<char>> {
    seq!["ip"@, "addr"@, "add"@, cidr, "dev"@, host]
}

fn host_addr_cmd(cidr: &str, host: &str) -> (r: Vec<String>)
    ensures
        names_of(r@) == host_addr_args(cidr@, host@),
{
    let args = argv(vec!["ip", "addr", "add", cidr, "dev", host]);
    proof {
        reveal_strlit("add");
        reveal_strlit("addr");
        reveal_strlit("dev");
        reveal_strlit("ip");
        assert(strs_view(seq!["ip", "addr", "add", cidr, "dev", host]) =~= seq!["ip"@, "addr"@, "add"@, cidr@, "dev"@, host@]);
    }
    args
}

/// The command that gives a device in the namespace an address.
pub open spec fn netns_addr_add_args(netns: Seq<char>, cidr: Seq<char>, device: Seq<char>) -> Seq<Seq<char>> {
    in_netns(netns, seq!["ip"@, "addr"@, "add"@, cidr, "dev"@, device])
}

fn netns_addr_add_cmd(netns: &str, cidr: &str, device: &str) -> (r: Vec<String>)
    ensures
        names_of(r@) == netns_addr_add_args(netns@, cidr@, device@),
{
    let args = argv(vec!["ip", "addr", "add", cidr, "dev", device]);
    proof {
        reveal_strlit("add");
        reveal_strlit("addr");
        reveal_strlit("dev");
        reveal_strlit("ip");
        assert(strs_view(seq!["ip", "addr", "add", cidr, "dev", device]) =~= seq!["ip"@, "addr"@, "add"@, cidr@, "dev"@, device@]);
    }
    netns_args(netns, args)
}

/// The command that brings the host end up.
pub open spec fn host_up_args(host: Seq<char>) -> Seq<Seq<char>> {
    seq!["ip"@, "link"@, "set"@, host, "up"@]
}

fn host_up_cmd(host: &str) -> (r: Vec<String>)
    ensures
        names_of(r@) == host_up_args(host@),
{
    let args = argv(vec!["ip", "link", "set", host, "up"]);
    proof {
        reveal_strlit("ip");
        reveal_strlit("link");
        reveal_strlit("set");
        reveal_strlit("up");
        assert(strs_view(seq!["ip", "link", "set", host, "up"]) =~= seq!["ip"@, "link"@, "set"@, host@, "up"@]);
    }
    args
}

/// The command that brings a device in the namespace up.
pub open spec fn netns_link_up_args(netns: Seq<char>, device: Seq<char>) -> Seq<Seq<char>> {
    in_netns(netns, seq!["ip"@, "link"@, "set"@, device, "up"@])
}

fn netns_link_up_cmd(netns: &str, device: &str) -> (r: Vec<String>)
    ensures
        names_of(r@) == netns_link_up_args(netns@, device@),
{
    let args = argv(vec!["ip", "link", "set", device, "up"]);
    proof {
        reveal_strlit("ip");
        reveal_strlit("link");
        reveal_strlit("set");
        reveal_strlit("up");
        assert(strs_view(seq!["ip", "link", "set", device, "up"]) =~= seq!["ip"@, "link"@, "set"@, device@, "up"@]);
    }
    netns_args(netns, args)
}

/// The text of a `/31` network: `a.b.c.d/31`.
pub open spec fn p2p_text(addr: u32) -> Seq<char> {
    ipv4_text(addr) + "/31"@
}

fn p2p_string(addr: u32) -> (r: String)
    ensures
        r@ == p2p_text(addr),
{
    let mut out: Vec<char> = Vec::new();
    crate::network_names::push_ipv4(&mut out, addr);
    push_str(&mut out, "/31");
    string_from_chars(out)
}

/// Where the creation of a veth pair stands.
#[derive(Debug, Clone, Copy, PartialEq, Eq)]
pub enum VethStage {
    /// Creating the pair.
    Create,
    /// The host end existed: checking for the VM end in the namespace.
    CheckPeer,
    /// Both ends existed: removing the host end's addresses.
    FlushHost,
    /// Removing the VM end's addresses.
    FlushVm,
    /// Only the host end existed (the namespace was recreated): deleting it.
    DeleteHost,
    /// Creating the pair again.
    Recreate,
    /// Giving the host end its address.
    AddHostAddr,
    /// Giving the VM end its address.
    AddVmAddr,
    /// Bringing the host end up.
    HostUp,
    /// Bringing the VM end up.
    VmUp,
    Finished,
}

/// Creates the point-to-point veth pair of host address `host_addr`: the
/// host end in the host's namespace, the VM end (with the next address) in
/// the VM's namespace. A pair that exists already has its addresses
/// flushed and set again; a stale host end whose peer is gone is deleted
/// and the pair created anew.
pub struct VethSetup {
    netns: String,
    host_name: String,
    vm_name: String,
    host_cidr: String,
    vm_cidr: String,
    stage: VethStage,
}

/// The names, addresses and stage of a veth setup.
pub struct VethSetupView {
    pub netns: Seq<char>,
    pub host_name: Seq<char>,
    pub vm_name: Seq<char>,
    pub host_cidr: Seq<char>,
    pub vm_cidr: Seq<char>,
    pub stage: VethStage,
}

impl View for VethSetup {
    type V = VethSetupView;

    closed spec fn view(&self) -> VethSetupView {
        VethSetupView {
            netns: self.netns@,
            host_name: self.host_name@,
            vm_name: self.vm_name@,
            host_cidr: self.host_cidr@,
            vm_cidr: self.vm_cidr@,
            stage: self.stage,
        }
    }
}

/// The next stage and action of a veth setup after the event (`ok`, or a
/// failure with message `err`).
pub open spec fn veth_next(s: VethSetupView, ok: bool, err: Seq<char>) -> (VethStage, NetActionView) {
    let fail = (VethStage::Finished, NetActionView::FinishErr(err));
    let add_host = (VethStage::AddHostAddr, NetActionView::Run(host_addr_args(s.host_cidr, s.host_name)));
    match s.stage {
        VethStage::Create => if ok {
            add_host
        } else if already_exists(err) {
            (VethStage::CheckPeer, NetActionView::Run(link_show_args(s.netns, s.vm_name)))
        } else {
            fail
        },
        VethStage::CheckPeer => if ok {
            (VethStage::FlushHost, NetActionView::RunIgnoringFailure(flush_host_args(s.host_name)))
        } else {
            (VethStage::DeleteHost, NetActionView::Run(del_host_args(s.host_name)))
        },
        VethStage::FlushHost => (
            VethStage::FlushVm,
            NetActionView::RunIgnoringFailure(netns_flush_args(s.netns, s.vm_name)),
        ),
        VethStage::FlushVm => add_host,
        VethStage::DeleteHost => if ok {
            (VethStage::Recreate, NetActionView::Run(veth_create_args(s.host_name, s.vm_name, s.netns)))
        } else {
            fail
        },
        VethStage::Recreate => if ok {
            add_host
        } else {
            fail
        },
        VethStage::AddHostAddr => if ok {
            (VethStage::AddVmAddr, NetActionView::Run(netns_addr_add_args(s.netns, s.vm_cidr, s.vm_name)))
        } else {
            fail
        },
        VethStage::AddVmAddr => if ok {
            (VethStage::HostUp, NetActionView::Run(host_up_args(s.host_name)))
        } else {
            fail
        },
        VethStage::HostUp => if ok {
            (VethStage::VmUp, NetActionView::Run(netns_link_up_args(s.netns, s.vm_name)))
        } else {
            fail
        },
        VethStage::VmUp => if ok {
            (VethStage::Finished, NetActionView::FinishOk)
        } else {
            fail
        },
        VethStage::Finished => fail,
    }
}

impl VethSetup {
    /// Starts creating the veth pair of `host_addr` into namespace `netns`;
    /// fails when `host_addr` is the upper address of its pair.
    pub fn start(host_addr: u32, netns: &str) -> (r: Result<(Self, NetAction), HostAddrError>)
        ensures
            octet3(host_addr) % 2 == 1 <==> r is Err,
            r matches Err(e) ==> e.host_addr == host_addr,
            r matches Ok((v, a)) ==> {
                &&& v@.netns == netns@
                &&& v@.host_name == veth_host_name(host_addr)
                &&& v@.vm_name == veth_vm_name((host_addr + 1) as u32)
                &&& v@.host_cidr == p2p_text(host_addr)
                &&& v@.vm_cidr == p2p_text((host_addr + 1) as u32)
                &&& v@.stage == VethStage::Create
                &&& net_action_view(a) == NetActionView::Run(
                    veth_create_args(v@.host_name, v@.vm_name, netns@),
                )
            },
    {
        let vm_addr = match vm_addr_from_host_addr(host_addr) {
            Ok(a) => a,
            Err(e) => {
                return Err(e);
            },
        };
        let host_name = veth_host_name_from_host_addr(host_addr);
        let vm_name = veth_vm_name_from_vm_addr(vm_addr);
        let create = veth_create_cmd(host_name.as_str(), vm_name.as_str(), netns);
        let setup = VethSetup {
            netns: string_of(netns),
            host_name,
            vm_name,
            host_cidr: p2p_string(host_addr),
            vm_cidr: p2p_string(vm_addr),
            stage: VethStage::Create,
        };
        Ok((setup, NetAction::Run(create)))
    }

    /// Whether the setup is over.
    pub fn is_finished(&self) -> (r: bool)
        ensures
            r == (self@.stage == VethStage::Finished),
    {
        match self.stage {
            VethStage::Finished => true,
            _ => false,
        }
    }

    /// Takes how the last command went and returns the next action.
    pub fn step(&mut self, event: NetEvent) -> (r: NetAction)
        requires
            old(self)@.stage != VethStage::Finished,
        ensures
            final(self)@ == (VethSetupView { stage: final(self)@.stage, ..old(self)@ }),
            (final(self)@.stage, net_action_view(r)) == veth_next(
                old(self)@,
                event is Succeeded,
                failure_text(event),
            ),
    {
        let exists = is_already_exists(&event);
        let ok = match &event {
            NetEvent::Succeeded => true,
            NetEvent::Failed(_) => false,
        };
        match self.stage {
            VethStage::Create => {
                if ok {
                    self.stage = VethStage::AddHostAddr;
                    NetAction::Run(host_addr_cmd(self.host_cidr.as_str(), self.host_name.as_str()))
                } else if exists {
                    self.stage = VethStage::CheckPeer;
                    NetAction::Run(link_show_cmd(self.netns.as_str(), self.vm_name.as_str()))
                } else {
                    self.stage = VethStage::Finished;
                    failed(event)
                }
            },
            VethStage::CheckPeer => {
                if ok {
                    self.stage = VethStage::FlushHost;
                    NetAction::RunIgnoringFailure(flush_host_cmd(self.host_name.as_str()))
                } else {
                    self.stage = VethStage::DeleteHost;
                    NetAction::Run(del_host_cmd(self.host_name.as_str()))
                }
            },
            VethStage::FlushHost => {
                self.stage = VethStage::FlushVm;
                NetAction::RunIgnoringFailure(netns_flush_cmd(self.netns.as_str(), self.vm_name.as_str()))
            },
            VethStage::FlushVm => {
                self.stage = VethStage::AddHostAddr;
                NetAction::Run(host_addr_cmd(self.host_cidr.as_str(), self.host_name.as_str()))
            },
            VethStage::DeleteHost => {
                if ok {
                    self.stage = VethStage::Recreate;
                    NetAction::Run(
                        veth_create_cmd(
                            self.host_name.as_str(),
                            self.vm_name.as_str(),
                            self.netns.as_str(),
                        ),
                    )
                } else {
                    self.stage = VethStage::Finished;
                    failed(event)
                }
            },
            VethStage::Recreate => {
                if ok {
                    self.stage = VethStage::AddHostAddr;
                    NetAction::Run(host_addr_cmd(self.host_cidr.as_str(), self.host_name.as_str()))
                } else {
                    self.stage = VethStage::Finished;
                    failed(event)
                }
            },
            VethStage::AddHostAddr => {
                if ok {
                    self.stage = VethStage::AddVmAddr;
                    NetAction::Run(
                        netns_addr_add_cmd(self.netns.as_str(), self.vm_cidr.as_str(), self.vm_name.as_str()),
                    )
                } else {
                    self.stage = VethStage::Finished;
                    failed(event)
                }
            },
            VethStage::AddVmAddr => {
                if ok {
                    self.stage = VethStage::HostUp;
                    NetAction::Run(host_up_cmd(self.host_name.as_str()))
                } else {
                    self.stage = VethStage::Finished;
                    failed(event)
                }
            },
            VethStage::HostUp => {
                if ok {
                    self.stage = VethStage::VmUp;
                    NetAction::Run(netns_link_up_cmd(self.netns.as_str(), self.vm_name.as_str()))
                } else {
                    self.stage = VethStage::Finished;
                    failed(event)
                }
            },
            _ => {
                self.stage = VethStage::Finished;
                if ok {
                    NetAction::Finish(Ok(()))
                } else {
                    failed(event)
                }
            },
        }
    }
}

/// The command that deletes a device in the namespace.
pub open spec fn netns_link_del_args(netns: Seq<char>, device: Seq<char>) -> Seq<Seq<char>> {
    in_netns(netns, seq!["ip"@, "link"@, "del"@, device])
}

fn netns_link_del_cmd(netns: &str, device: &str) -> (r: Vec<String>)
    ensures
        names_of(r@) == netns_link_del_args(netns@, device@),
{
    let args = argv(vec!["ip", "link", "del", device]);
    proof {
        reveal_strlit("del");
        reveal_strlit("ip");
        reveal_strlit("link");
        assert(strs_view(seq!["ip", "link", "del", device]) =~= seq!["ip"@, "link"@, "del"@, device@]);
    }
    netns_args(netns, args)
}

/// The command that creates a TAP device in the namespace.
pub open spec fn tuntap_add_args(netns: Seq<char>, device: Seq<char>) -> Seq<Seq<char>> {
    in_netns(netns, seq!["ip"@, "tuntap"@, "add"@, "dev"@, device, "mode"@, "tap"@])
}

fn tuntap_add_cmd(netns: &str, device: &str) -> (r: Vec<String>)
    ensures
        names_of(r@) == tuntap_add_args(netns@, device@),
{
    let args = argv(vec!["ip", "tuntap", "add", "dev", device, "mode", "tap"]);
    proof {
        reveal_strlit("add");
        reveal_strlit("dev");
        reveal_strlit("ip");
        reveal_strlit("mode");
        reveal_strlit("tap");
        reveal_strlit("tuntap");
        assert(strs_view(seq!["ip", "tuntap", "add", "dev", device, "mode", "tap"]) =~= seq!["ip"@, "tuntap"@, "add"@, "dev"@, device@, "mode"@, "tap"@]);
    }
    netns_args(netns, args)
}

/// The command that sets the MAC address of a device in the namespace.
pub open spec fn set_mac_args(netns: Seq<char>, device: Seq<char>, mac: Seq<char>) -> Seq<Seq<char>> {
    in_netns(netns, seq!["ip"@, "link"@, "set"@, "dev"@, device, "address"@, mac])
}

fn set_mac_cmd(netns: &str, device: &str, mac: &str) -> (r: Vec<String>)
    ensures
        names_of(r@) == set_mac_args(netns@, device@, mac@),
{
    let args = argv(vec!["ip", "link", "set", "dev", device, "address", mac]);
    proof {
        reveal_strlit("address");
        reveal_strlit("dev");
        reveal_strlit("ip");
        reveal_strlit("link");
        reveal_strlit("set");
        assert(strs_view(seq!["ip", "link", "set", "dev", device, "address", mac]) =~= seq!["ip"@, "link"@, "set"@, "dev"@, device@, "address"@, mac@]);
    }
    netns_args(netns, args)
}

/// The text of a network: its address, `/` and its prefix length.
pub open spec fn net_text(net: crate::ipv4::Ipv4NetView) -> Seq<char> {
    ipv4_text(net.addr) + "/"@ + decimal(net.prefix_len as nat)
}

fn net_string(net: &crate::ipv4::Ipv4Net) -> (r: String)
    ensures
        r@ == net_text(net@),
{
    let mut out: Vec<char> = Vec::new();
    crate::network_names::push_ipv4(&mut out, net.addr());
    push_str(&mut out, "/");
    push_decimal(&mut out, net.prefix_len() as u128);
    string_from_chars(out)
}

/// The marker of a device that is busy in a command's failure.
pub open spec fn busy(err: Seq<char>) -> bool {
    contains_text(err, "Device or resource busy"@)
}

/// Where the creation of a TAP device stands.
#[derive(Debug, Clone, Copy, PartialEq, Eq)]
pub enum TapStage {
    /// Checking whether the device exists already.
    CheckExists,
    /// Deleting the existing device, for a fresh one.
    DeleteStale,
    /// Creating the device.
    Add,
    /// The device was busy: removing its addresses.
    FlushBusy,
    /// Giving it its IPv4 address.
    AddV4,
    /// Giving it its IPv6 address.
    AddV6,
    /// Setting its MAC address.
    SetMac,
    /// Bringing it up.
    Up,
    Finished,
}

/// Creates the TAP device of a VM in its namespace, with its IPv4 and IPv6
/// networks and the MAC address derived from its IPv4 address. Started by
/// `ensure`, an existing device is deleted first (one left by a process
/// that just exited may still be held by the kernel).
pub struct TapSetup {
    netns: String,
    tap_name: String,
    v4_cidr: String,
    v6_cidr: String,
    mac: String,
    stage: TapStage,
}

/// The names, addresses and stage of a TAP setup.
pub struct TapSetupView {
    pub netns: Seq<char>,
    pub tap_name: Seq<char>,
    pub v4_cidr: Seq<char>,
    pub v6_cidr: Seq<char>,
    pub mac: Seq<char>,
    pub stage: TapStage,
}

impl View for TapSetup {
    type V = TapSetupView;

    closed spec fn view(&self) -> TapSetupView {
        TapSetupView {
            netns: self.netns@,
            tap_name: self.tap_name@,
            v4_cidr: self.v4_cidr@,
            v6_cidr: self.v6_cidr@,
            mac: self.mac@,
            stage: self.stage,
        }
    }
}

/// The next stage and action of a TAP setup after the event (`ok`, or a
/// failure with message `err`).
pub open spec fn tap_next(s: TapSetupView, ok: bool, err: Seq<char>) -> (TapStage, NetActionView) {
    let fail = (TapStage::Finished, NetActionView::FinishErr(err));
    let add = (TapStage::Add, NetActionView::Run(tuntap_add_args(s.netns, s.tap_name)));
    let add_v4 = (TapStage::AddV4, NetActionView::Run(netns_addr_add_args(s.netns, s.v4_cidr, s.tap_name)));
    match s.stage {
        TapStage::CheckExists => if ok {
            (TapStage::DeleteStale, NetActionView::RunIgnoringFailure(netns_link_del_args(s.netns, s.tap_name)))
        } else {
            add
        },
        TapStage::DeleteStale => add,
        TapStage::Add => if ok {
            add_v4
        } else if busy(err) {
            (TapStage::FlushBusy, NetActionView::Run(netns_flush_args(s.netns, s.tap_name)))
        } else {
            fail
        },
        TapStage::FlushBusy => if ok {
            add_v4
        } else {
            fail
        },
        TapStage::AddV4 => if ok {
            (TapStage::AddV6, NetActionView::Run(netns_addr_add_args(s.netns, s.v6_cidr, s.tap_name)))
        } else {
            fail
        },
        TapStage::AddV6 => if ok {
            (TapStage::SetMac, NetActionView::Run(set_mac_args(s.netns, s.tap_name, s.mac)))
        } else {
            fail
        },
        TapStage::SetMac => if ok {
            (TapStage::Up, NetActionView::Run(netns_link_up_args(s.netns, s.tap_name)))
        } else {
            fail
        },
        TapStage::Up => if ok {
            (TapStage::Finished, NetActionView::FinishOk)
        } else {
            fail
        },
        TapStage::Finished => fail,
    }
}

impl TapSetup {
    fn new(tap_name: &str, tap_net_v4: &crate::ipv4::Ipv4Net, tap_net_v6: &str, netns: &str, stage: TapStage) -> (r: Self)
        ensures
            r@.netns == netns@,
            r@.tap_name == tap_name@,
            r@.v4_cidr == net_text(tap_net_v4@),
            r@.v6_cidr == tap_net_v6@,
            r@.mac == mac_text(seq![
                6u8,
                0u8,
                crate::network_names::octet0(tap_net_v4@.addr) as u8,
                crate::network_names::octet1(tap_net_v4@.addr) as u8,
                crate::network_names::octet2(tap_net_v4@.addr) as u8,
                octet3(tap_net_v4@.addr) as u8,
            ]),
            r@.stage == stage,
    {
        let mac = ipv4_to_mac(tap_net_v4.addr());
        TapSetup {
            netns: string_of(netns),
            tap_name: string_of(tap_name),
            v4_cidr: net_string(tap_net_v4),
            v6_cidr: string_of(tap_net_v6),
            mac: mac.to_string(),
            stage,
        }
    }

    /// Starts making sure a fresh TAP device `tap_name` exists in `netns`,
    /// with IPv4 network `tap_net_v4` and IPv6 network text `tap_net_v6`:
    /// the first command checks whether it exists.
    pub fn ensure(tap_name: &str, tap_net_v4: &crate::ipv4::Ipv4Net, tap_net_v6: &str, netns: &str) -> (r: (Self, NetAction))
        ensures
            r.0@.netns == netns@,
            r.0@.tap_name == tap_name@,
            r.0@.v4_cidr == net_text(tap_net_v4@),
            r.0@.v6_cidr == tap_net_v6@,
            r.0@.stage == TapStage::CheckExists,
            net_action_view(r.1) == NetActionView::Run(link_show_args(netns@, tap_name@)),
    {
        let setup = TapSetup::new(tap_name, tap_net_v4, tap_net_v6, netns, TapStage::CheckExists);
        (setup, NetAction::Run(link_show_cmd(netns, tap_name)))
    }

    /// Starts creating TAP device `tap_name` in `netns`: the first command
    /// creates it.
    pub fn add(tap_name: &str, tap_net_v4: &crate::ipv4::Ipv4Net, tap_net_v6: &str, netns: &str) -> (r: (Self, NetAction))
        ensures
            r.0@.netns == netns@,
            r.0@.tap_name == tap_name@,
            r.0@.v4_cidr == net_text(tap_net_v4@),
            r.0@.v6_cidr == tap_net_v6@,
            r.0@.stage == TapStage::Add,
            net_action_view(r.1) == NetActionView::Run(tuntap_add_args(netns@, tap_name@)),
    {
        let setup = TapSetup::new(tap_name, tap_net_v4, tap_net_v6, netns, TapStage::Add);
        (setup, NetAction::Run(tuntap_add_cmd(netns, tap_name)))
    }

    /// Whether the setup is over.
    pub fn is_finished(&self) -> (r: bool)
        ensures
            r == (self@.stage == TapStage::Finished),
    {
        match self.stage {
            TapStage::Finished => true,
            _ => false,
        }
    }

    /// Takes how the last command went and returns the next action.
    pub fn step(&mut self, event: NetEvent) -> (r: NetAction)
        requires
            old(self)@.stage != TapStage::Finished,
        ensures
            final(self)@ == (TapSetupView { stage: final(self)@.stage, ..old(self)@ }),
            (final(self)@.stage, net_action_view(r)) == tap_next(
                old(self)@,
                event is Succeeded,
                failure_text(event),
            ),
    {
        let is_busy = match &event {
            NetEvent::Failed(t) => text_contains(t.as_str(), "Device or resource busy"),
            NetEvent::Succeeded => false,
        };
        let ok = match &event {
            NetEvent::Succeeded => true,
            NetEvent::Failed(_) => false,
        };
        match self.stage {
            TapStage::CheckExists => {
                if ok {
                    self.stage = TapStage::DeleteStale;
                    NetAction::RunIgnoringFailure(netns_link_del_cmd(self.netns.as_str(), self.tap_name.as_str()))
                } else {
                    self.stage = TapStage::Add;
                    NetAction::Run(tuntap_add_cmd(self.netns.as_str(), self.tap_name.as_str()))
                }
            },
            TapStage::DeleteStale => {
                self.stage = TapStage::Add;
                NetAction::Run(tuntap_add_cmd(self.netns.as_str(), self.tap_name.as_str()))
            },
            TapStage::Add => {
                if ok {
                    self.stage = TapStage::AddV4;
                    NetAction::Run(
                        netns_addr_add_cmd(self.netns.as_str(), self.v4_cidr.as_str(), self.tap_name.as_str()),
                    )
                } else if is_busy {
                    self.stage = TapStage::FlushBusy;
                    NetAction::Run(netns_flush_cmd(self.netns.as_str(), self.tap_name.as_str()))
                } else {
                    self.stage = TapStage::Finished;
                    failed(event)
                }
            },
            TapStage::FlushBusy => {
                if ok {
                    self.stage = TapStage::AddV4;
                    NetAction::Run(
                        netns_addr_add_cmd(self.netns.as_str(), self.v4_cidr.as_str(), self.tap_name.as_str()),
                    )
                } else {
                    self.stage = TapStage::Finished;
                    failed(event)
                }
            },
            TapStage::AddV4 => {
                if ok {
                    self.stage = TapStage::AddV6;
                    NetAction::Run(
                        netns_addr_add_cmd(self.netns.as_str(), self.v6_cidr.as_str(), self.tap_name.as_str()),
                    )
                } else {
                    self.stage = TapStage::Finished;
                    failed(event)
                }
            },
            TapStage::AddV6 => {
                if ok {
                    self.stage = TapStage::SetMac;
                    NetAction::Run(set_mac_cmd(self.netns.as_str(), self.tap_name.as_str(), self.mac.as_str()))
                } else {
                    self.stage = TapStage::Finished;
                    failed(event)
                }
            },
            TapStage::SetMac => {
                if ok {
                    self.stage = TapStage::Up;
                    NetAction::Run(netns_link_up_cmd(self.netns.as_str(), self.tap_name.as_str()))
                } else {
                    self.stage = TapStage::Finished;
                    failed(event)
                }
            },
            _ => {
                self.stage = TapStage::Finished;
                if ok {
                    NetAction::Finish(Ok(()))
                } else {
                    failed(event)
                }
            },
        }
    }
}

/// The commands that enable forwarding on the host (IPv4 and IPv6
/// forwarding on, forwarded packets accepted), run in this order.
pub open spec fn host_forwarding_args() -> Seq<Seq<Seq<char>>> {
    seq![
        seq!["sysctl"@, "-w"@, "net.ipv4.ip_forward=1"@],
        seq!["sysctl"@, "-w"@, "net.ipv6.conf.all.forwarding=1"@],
        seq!["iptables"@, "-P"@, "FORWARD"@, "ACCEPT"@],
        seq!["ip6tables"@, "-P"@, "FORWARD"@, "ACCEPT"@],
    ]
}

/// The host's forwarding commands.
pub fn host_forwarding_commands() -> (r: Vec<Vec<String>>)
    ensures
        argvs_view(r@) == host_forwarding_args(),
{
    let mut out: Vec<Vec<String>> = Vec::new();
    out.push(argv(vec!["sysctl", "-w", "net.ipv4.ip_forward=1"]));
    out.push(argv(vec!["sysctl", "-w", "net.ipv6.conf.all.forwarding=1"]));
    out.push(argv(vec!["iptables", "-P", "FORWARD", "ACCEPT"]));
    out.push(argv(vec!["ip6tables", "-P", "FORWARD", "ACCEPT"]));
    proof {
        reveal_strlit("sysctl");
        reveal_strlit("-w");
        reveal_strlit("net.ipv4.ip_forward=1");
        reveal_strlit("net.ipv6.conf.all.forwarding=1");
        reveal_strlit("iptables");
        reveal_strlit("ip6tables");
        reveal_strlit("-P");
        reveal_strlit("FORWARD");
        reveal_strlit("ACCEPT");
        assert(strs_view(seq!["sysctl", "-w", "net.ipv4.ip_forward=1"]) =~= seq!["sysctl"@, "-w"@, "net.ipv4.ip_forward=1"@]);
        assert(strs_view(seq!["sysctl", "-w", "net.ipv6.conf.all.forwarding=1"]) =~= seq!["sysctl"@, "-w"@, "net.ipv6.conf.all.forwarding=1"@]);
        assert(strs_view(seq!["iptables", "-P", "FORWARD", "ACCEPT"]) =~= seq!["iptables"@, "-P"@, "FORWARD"@, "ACCEPT"@]);
        assert(strs_view(seq!["ip6tables", "-P", "FORWARD", "ACCEPT"]) =~= seq!["ip6tables"@, "-P"@, "FORWARD"@, "ACCEPT"@]);
        assert(argvs_view(out@) =~= host_forwarding_args());
    }
    out
}

/// The command that deletes a namespace.
pub open spec fn netns_del_args(netns: Seq<char>) -> Seq<Seq<char>> {
    seq!["ip"@, "netns"@, "del"@, netns]
}

/// The command that deletes namespace `netns`.
pub fn netns_del_command(netns: &str) -> (r: Vec<String>)
    ensures
        names_of(r@) == netns_del_args(netns@),
{
    let args = argv(vec!["ip", "netns", "del", netns]);
    proof {
        reveal_strlit("ip");
        reveal_strlit("netns");
        reveal_strlit("del");
        assert(strs_view(seq!["ip", "netns", "del", netns]) =~= netns_del_args(netns@));
    }
    args
}

/// A veth setup reports success only after bringing the VM end up, and a
/// failure it reports carries the failed command's message; a pair that
/// exists already never fails the setup by itself.
pub proof fn lemma_veth_setup_outcomes(s: VethSetupView, ok: bool, err: Seq<char>)
    ensures
        veth_next(s, ok, err).1 is FinishOk ==> s.stage == VethStage::VmUp && ok,
        veth_next(s, ok, err).1 matches NetActionView::FinishErr(m) ==> m == err,
        s.stage == VethStage::Create && already_exists(err) ==> !(veth_next(s, ok, err).1 is FinishErr),
{
}

/// A TAP setup reports success only after bringing the device up, and a
/// failure it reports carries the failed command's message; a busy device
/// never fails its creation by itself.
pub proof fn lemma_tap_setup_outcomes(s: TapSetupView, ok: bool, err: Seq<char>)
    ensures
        tap_next(s, ok, err).1 is FinishOk ==> s.stage == TapStage::Up && ok,
        tap_next(s, ok, err).1 matches NetActionView::FinishErr(m) ==> m == err,
        s.stage == TapStage::Add && busy(err) ==> !(tap_next(s, ok, err).1 is FinishErr),
{
}

} // verus!
