//! WireGuard interfaces of VMs: the cleanup of an interface whose setup
//! failed half-way, the reading of `ip -o link show type wireguard`, and the
//! retries of bringing an interface up while the kernel still holds the
//! port of a deleted one.

use crate::firecracker::string_of;
use crate::kernel_cmdline::{second_word, second_word_of};
use crate::snapshot_cache::names_of;
use crate::text::{chars_of, push_str, string_from_chars};
use vstd::prelude::*;

verus! {

/// Deletes a WireGuard interface when its setup fails, from wherever the
/// interface then lives (the global namespace, or the namespace it was moved
/// to), unless the setup completed and disarmed it.
pub struct InterfaceGuard<'a> {
    name: &'a str,
    /// `None` while the interface is in the global namespace.
    namespace: Option<&'a str>,
    disarmed: bool,
}

/// The state of an [`InterfaceGuard`].
pub struct InterfaceGuardView {
    pub name: Seq<char>,
    pub namespace: Option<Seq<char>>,
    pub disarmed: bool,
}

impl<'a> View for InterfaceGuard<'a> {
    type V = InterfaceGuardView;

    closed spec fn view(&self) -> InterfaceGuardView {
        InterfaceGuardView {
            name: self.name@,
            namespace: match self.namespace {
                Some(ns) => Some(ns@),
                None => None,
            },
            disarmed: self.disarmed,
        }
    }
}

/// The command that deletes the interface, if the guard is still armed.
pub open spec fn cleanup_command_of(g: InterfaceGuardView) -> Option<Seq<Seq<char>>> {
    if g.disarmed {
        None
    } else {
        match g.namespace {
            None => Some(seq!["ip"@, "link"@, "del"@, g.name]),
            Some(ns) => Some(seq!["ip"@, "netns"@, "exec"@, ns, "ip"@, "link"@, "del"@, g.name]),
        }
    }
}

impl<'a> InterfaceGuard<'a> {
    /// Guards the interface `name`, just created in the global namespace.
    pub fn new(name: &'a str) -> (r: Self)
        ensures
            r@.name == name@,
            r@.namespace is None,
            !r@.disarmed,
    {
        InterfaceGuard { name, namespace: None, disarmed: false }
    }

    /// Records that the interface has been moved into `namespace`.
    pub fn moved_to_namespace(&mut self, namespace: &'a str)
        ensures
            final(self)@.name == old(self)@.name,
            final(self)@.namespace == Some(namespace@),
            final(self)@.disarmed == old(self)@.disarmed,
    {
        self.namespace = Some(namespace);
    }

    /// Disarms the guard once every setup step has succeeded: the interface
    /// is kept.
    pub fn disarm(&mut self)
        ensures
            final(self)@.name == old(self)@.name,
            final(self)@.namespace == old(self)@.namespace,
            final(self)@.disarmed,
    {
        self.disarmed = true;
    }

    /// The command that deletes the interface when the guard is dropped:
    /// none once disarmed; `ip link del` while the interface is in the global
    /// namespace; the same inside the namespace once it has been moved.
    pub fn cleanup_command(&self) -> (r: Option<Vec<String>>)
        ensures
            r is None <==> cleanup_command_of(self@) is None,
            r matches Some(args) ==> cleanup_command_of(self@) == Some(names_of(args@)),
    {
        if self.disarmed {
            return None;
        }
        let mut args: Vec<String> = Vec::new();
        args.push(string_of("ip"));
        match self.namespace {
            None => {
                args.push(string_of("link"));
                args.push(string_of("del"));
                args.push(string_of(self.name));
                proof {
                    assert(names_of(args@) =~= seq!["ip"@, "link"@, "del"@, self.name@]);
                }
            },
            Some(ns) => {
                args.push(string_of("netns"));
                args.push(string_of("exec"));
                args.push(string_of(ns));
                args.push(string_of("ip"));
                args.push(string_of("link"));
                args.push(string_of("del"));
                args.push(string_of(self.name));
                proof {
                    assert(names_of(args@) =~= seq![
                        "ip"@,
                        "netns"@,
                        "exec"@,
                        ns@,
                        "ip"@,
                        "link"@,
                        "del"@,
                        self.name@,
                    ]);
                }
            },
        }
        Some(args)
    }
}

/// A guard that is never disarmed deletes the interface from where it was
/// last recorded; a disarmed guard deletes nothing.
pub proof fn lemma_guard_cleanup_follows_interface(g: InterfaceGuardView, ns: Seq<char>)
    ensures
        !g.disarmed ==> cleanup_command_of(
            InterfaceGuardView { name: g.name, namespace: Some(ns), disarmed: false },
        ) == Some(seq!["ip"@, "netns"@, "exec"@, ns, "ip"@, "link"@, "del"@, g.name]),
        cleanup_command_of(InterfaceGuardView { name: g.name, namespace: g.namespace, disarmed: true })
            is None,
{
}

/// The first position at or after `i` holding a line feed (or the end).
pub open spec fn line_end(s: Seq<char>, i: int) -> int
    decreases s.len() - i,
{
    if i < 0 || i >= s.len() {
        s.len() as int
    } else if s[i] == '\n' {
        i
    } else {
        line_end(s, i + 1)
    }
}

/// A line without the carriage return that ends it, if any.
pub open spec fn strip_cr(line: Seq<char>) -> Seq<char> {
    if line.len() > 0 && line.last() == '\r' {
        line.drop_last()
    } else {
        line
    }
}

/// The line of `s` that starts at `i` ends at a line feed or at the end.
pub proof fn lemma_line_end_bounds(s: Seq<char>, i: int)
    requires
        0 <= i <= s.len(),
    ensures
        i <= line_end(s, i) <= s.len(),
        line_end(s, i) < s.len() ==> s[line_end(s, i)] == '\n',
        forall|j: int| i <= j < line_end(s, i) ==> s[j] != '\n',
    decreases s.len() - i,
{
    if i < s.len() && s[i] != '\n' {
        lemma_line_end_bounds(s, i + 1);
    }
}

proof fn lemma_line_end_at(s: Seq<char>, i: int, k: int)
    requires
        0 <= i <= k <= s.len(),
        forall|j: int| i <= j < k ==> s[j] != '\n',
        k == s.len() || s[k] == '\n',
    ensures
        line_end(s, i) == k,
    decreases k - i,
{
    if i < k {
        lemma_line_end_at(s, i + 1, k);
    }
}

/// The lines of `s` from position `i` on, as `str::lines` splits a text: at
/// each line feed, a line that ends with `\r\n` losing its carriage return
/// too; a last line without a line feed is kept as it is, and a text that
/// ends with a line feed has no empty line after it.
pub open spec fn lines_from(s: Seq<char>, i: int) -> Seq<Seq<char>>
    decreases s.len() - i,
{
    if i < 0 || i >= s.len() {
        Seq::empty()
    } else {
        let e = line_end(s, i);
        proof {
            lemma_line_end_bounds(s, i);
        }
        if e >= s.len() {
            seq![s.subrange(i, s.len() as int)]
        } else {
            seq![strip_cr(s.subrange(i, e))] + lines_from(s, e + 1)
        }
    }
}

/// The lines of a text (`str::lines`).
pub open spec fn text_lines(s: Seq<char>) -> Seq<Seq<char>> {
    lines_from(s, 0)
}

/// Splits `text` into its lines, as `str::lines` does.
pub(crate) fn lines_of(text: &str) -> (r: Vec<String>)
    ensures
        names_of(r@) == text_lines(text@),
{
    let s = chars_of(text);
    let ghost t = s@;
    let mut out: Vec<String> = Vec::new();
    let mut current: Vec<char> = Vec::new();
    let mut start: usize = 0;
    let mut i: usize = 0;
    while i < s.len()
        invariant
            t == s@,
            start <= i <= t.len(),
            current@ == t.subrange(start as int, i as int),
            forall|j: int| start <= j < i ==> t[j] != '\n',
            names_of(out@) + lines_from(t, start as int) == lines_from(t, 0),
        decreases t.len() - i,
    {
        if s[i] == '\n' {
            proof {
                lemma_line_end_at(t, start as int, i as int);
            }
            let ghost seg = t.subrange(start as int, i as int);
            if current.len() > 0 && current[current.len() - 1] == '\r' {
                current.pop();
            }
            assert(current@ == strip_cr(seg));
            let line = string_from_chars(current);
            let ghost before = names_of(out@);
            out.push(line);
            proof {
                assert(names_of(out@) == before.push(strip_cr(seg)));
                assert(lines_from(t, start as int) == seq![strip_cr(seg)] + lines_from(t, i + 1));
                assert(names_of(out@) + lines_from(t, i + 1) =~= before + lines_from(t, start as int));
            }
            current = Vec::new();
            start = i + 1;
            i = i + 1;
            assert(current@ =~= t.subrange(start as int, i as int));
        } else {
            current.push(s[i]);
            i = i + 1;
            assert(current@ =~= t.subrange(start as int, i as int));
        }
    }
    if start < s.len() {
        proof {
            lemma_line_end_at(t, start as int, t.len() as int);
        }
        let ghost before = names_of(out@);
        out.push(string_from_chars(current));
        proof {
            assert(names_of(out@) == before.push(t.subrange(start as int, t.len() as int)));
            assert(names_of(out@) =~= before + lines_from(t, start as int));
        }
    } else {
        assert(names_of(out@) =~= names_of(out@) + lines_from(t, start as int));
    }
    out
}

/// `s` without the `:` characters at its end.
pub open spec fn trim_trailing_colons(s: Seq<char>) -> Seq<char>
    decreases s.len(),
{
    if s.len() > 0 && s.last() == ':' {
        trim_trailing_colons(s.drop_last())
    } else {
        s
    }
}

/// The part of `s` before its first `@` (all of `s` when there is none).
pub open spec fn before_at(s: Seq<char>) -> Seq<char>
    decreases s.len(),
{
    if s.len() == 0 {
        s
    } else if s[0] == '@' {
        Seq::empty()
    } else {
        seq![s[0]] + before_at(s.drop_first())
    }
}

/// The interface named on a line of `ip -o link` output
/// (`N: vm_XXXX@NONE: <flags> ...`): the second word, without its trailing
/// colons and without what follows an `@`. `None` when the line has a
/// single word.
pub open spec fn link_line_name(line: Seq<char>) -> Option<Seq<char>> {
    let word = second_word(line);
    if word.len() == 0 {
        None
    } else {
        Some(before_at(trim_trailing_colons(word)))
    }
}

proof fn lemma_before_at_take(s: Seq<char>, i: int)
    requires
        0 <= i <= s.len(),
        forall|j: int| 0 <= j < i ==> s[j] != '@',
        i == s.len() || s[i] == '@',
    ensures
        before_at(s) == s.take(i),
    decreases s.len(),
{
    if s.len() > 0 && i > 0 {
        lemma_before_at_take(s.drop_first(), i - 1);
        assert(seq![s[0]] + s.drop_first().take(i - 1) =~= s.take(i));
    } else if i == 0 {
        assert(s.take(0) =~= Seq::<char>::empty());
    }
}

proof fn lemma_trim_colons_take(s: Seq<char>, n: int)
    requires
        0 <= n <= s.len(),
        forall|j: int| n <= j < s.len() ==> s[j] == ':',
        n == 0 || s[n - 1] != ':',
    ensures
        trim_trailing_colons(s) == s.take(n),
    decreases s.len(),
{
    if s.len() > n {
        assert(s.drop_last().take(n) =~= s.take(n));
        lemma_trim_colons_take(s.drop_last(), n);
    } else {
        assert(s.take(n) =~= s);
    }
}

/// The interface named on a line of `ip -o link` output.
pub fn link_line_interface_name(line: &str) -> (r: Option<String>)
    ensures
        r is None <==> link_line_name(line@) is None,
        r matches Some(name) ==> link_line_name(line@) == Some(name@),
{
    let word = second_word_of(line);
    let chars = chars_of(word.as_str());
    if chars.len() == 0 {
        return None;
    }
    let mut n = chars.len();
    while n > 0 && chars[n - 1] == ':'
        invariant
            n <= chars@.len(),
            forall|j: int| n <= j < chars@.len() ==> chars@[j] == ':',
        decreases n,
    {
        n = n - 1;
    }
    proof {
        lemma_trim_colons_take(chars@, n as int);
    }
    let mut i: usize = 0;
    while i < n && chars[i] != '@'
        invariant
            i <= n <= chars@.len(),
            forall|j: int| 0 <= j < i ==> chars@[j] != '@',
        decreases n - i,
    {
        i = i + 1;
    }
    let ghost trimmed = chars@.take(n as int);
    proof {
        assert forall|j: int| 0 <= j < i implies trimmed[j] != '@' by {}
        lemma_before_at_take(trimmed, i as int);
        assert(trimmed.take(i as int) =~= chars@.take(i as int));
    }
    let mut out: Vec<char> = Vec::new();
    let mut k: usize = 0;
    while k < i
        invariant
            k <= i <= chars@.len(),
            out@ == chars@.take(k as int),
        decreases i - k,
    {
        out.push(chars[k]);
        k = k + 1;
        assert(out@ =~= chars@.take(k as int));
    }
    Some(string_from_chars(out))
}

/// The interfaces named in `ip -o link show type wireguard` output, in
/// order.
pub open spec fn listed_interfaces(lines: Seq<Seq<char>>) -> Seq<Seq<char>>
    decreases lines.len(),
{
    if lines.len() == 0 {
        Seq::empty()
    } else {
        listed_interfaces(lines.drop_last()) + match link_line_name(lines.last()) {
            Some(name) => seq![name],
            None => Seq::empty(),
        }
    }
}

/// The WireGuard interfaces listed in `ip -o link show type wireguard`
/// output (the stale interfaces of a namespace, before a new setup).
pub fn parse_wireguard_interfaces(output: &str) -> (r: Vec<String>)
    ensures
        names_of(r@) == listed_interfaces(text_lines(output@)),
{
    let lines = lines_of(output);
    let ghost ls = names_of(lines@);
    let mut names: Vec<String> = Vec::new();
    for i in 0..lines.len()
        invariant
            ls == names_of(lines@),
            names_of(names@) == listed_interfaces(ls.take(i as int)),
    {
        let ghost before = names_of(names@);
        match link_line_interface_name(lines[i].as_str()) {
            Some(name) => {
                names.push(name);
            },
            None => {},
        }
        proof {
            assert(ls.take(i + 1).drop_last() =~= ls.take(i as int));
            assert(ls.take(i + 1).last() == lines@[i as int]@);
            assert(names_of(names@) =~= listed_interfaces(ls.take(i + 1)));
        }
    }
    proof {
        assert(ls.take(lines@.len() as int) =~= ls);
    }
    names
}

/// Whether a name is that of a VM's WireGuard interface (`vm_` prefix).
pub open spec fn is_vm_interface(name: Seq<char>) -> bool {
    name.len() >= 3 && name[0] == 'v' && name[1] == 'm' && name[2] == '_'
}

/// The VM interfaces among `names`, in order.
pub open spec fn vm_interfaces(names: Seq<Seq<char>>) -> Seq<Seq<char>> {
    names.filter(|n: Seq<char>| is_vm_interface(n))
}

/// The VM WireGuard interfaces listed in the global namespace's
/// `ip -o link show type wireguard` output. Set-up interfaces all live in
/// their VM's namespace, so any listed here are orphans of failed setups.
pub fn orphaned_wireguard_interfaces(output: &str) -> (r: Vec<String>)
    ensures
        names_of(r@) == vm_interfaces(listed_interfaces(text_lines(output@))),
{
    let all = parse_wireguard_interfaces(output);
    let ghost ns = names_of(all@);
    let mut orphans: Vec<String> = Vec::new();
    for i in 0..all.len()
        invariant
            ns == names_of(all@),
            names_of(orphans@) == vm_interfaces(ns.take(i as int)),
    {
        let chars = chars_of(all[i].as_str());
        let is_vm = chars.len() >= 3 && chars[0] == 'v' && chars[1] == 'm' && chars[2] == '_';
        proof {
            let pre = ns.take(i + 1);
            assert(pre.drop_last() =~= ns.take(i as int));
            assert(pre.last() == all@[i as int]@);
            reveal(Seq::filter);
        }
        if is_vm {
            orphans.push(all[i].clone());
        }
        proof {
            assert(names_of(orphans@) =~= vm_interfaces(ns.take(i + 1)));
        }
    }
    proof {
        assert(ns.take(all@.len() as int) =~= ns);
    }
    orphans
}

/// How many times bringing an interface up is tried.
pub const UP_MAX_ATTEMPTS: u8 = 6;

/// The wait before the first retry, in milliseconds.
pub const UP_INITIAL_DELAY_MS: u64 = 200;

/// The longest wait between retries, in milliseconds.
pub const UP_MAX_DELAY_MS: u64 = 2000;

/// The wait after failed attempt `attempt` (counting from 0): 200 ms,
/// doubling each time, at most 2 s.
pub open spec fn up_retry_delay(attempt: nat) -> nat
    decreases attempt,
{
    if attempt == 0 {
        UP_INITIAL_DELAY_MS as nat
    } else {
        let d = 2 * up_retry_delay((attempt - 1) as nat);
        if d <= UP_MAX_DELAY_MS {
            d
        } else {
            UP_MAX_DELAY_MS as nat
        }
    }
}

/// `s` contains `part` at some position.
pub open spec fn contains_text(s: Seq<char>, part: Seq<char>) -> bool {
    exists|i: int| 0 <= i <= s.len() - part.len() && #[trigger] s.subrange(i, i + part.len()) == part
}

/// Whether `part` occurs in `s`.
pub fn text_contains(s: &str, part: &str) -> (r: bool)
    ensures
        r == contains_text(s@, part@),
{
    let a = chars_of(s);
    let b = chars_of(part);
    if b.len() > a.len() {
        return false;
    }
    if b.len() == 0 {
        proof {
            assert(s@.subrange(0int, 0int + part@.len()) =~= part@);
        }
        return true;
    }
    let n = a.len() - b.len();
    let mut i: usize = 0;
    assert(a@.len() <= usize::MAX);
    while i <= n
        invariant
            a@.len() <= usize::MAX,
            n + b@.len() == a@.len(),
            b@.len() >= 1,
            i <= n + 1,
            a@ == s@,
            b@ == part@,
            forall|j: int| 0 <= j < i ==> #[trigger] a@.subrange(j, j + b@.len()) != b@,
        decreases n + 1 - i,
    {
        let mut k: usize = 0;
        let mut same = true;
        while k < b.len() && same
            invariant
                k <= b@.len(),
                i <= n,
                a@.len() <= usize::MAX,
                n + b@.len() == a@.len(),
                same ==> a@.subrange(i as int, i + k) == b@.take(k as int),
                !same ==> a@.subrange(i as int, i + b@.len()) != b@,
            decreases b@.len() - k,
        {
            if a[i + k] != b[k] {
                proof {
                    assert(a@.subrange(i as int, i + b@.len())[k as int] == a@[i + k]);
                }
                same = false;
            } else {
                proof {
                    assert(a@.subrange(i as int, i + k + 1) =~= a@.subrange(i as int, i + k).push(
                        a@[i + k],
                    ));
                    assert(b@.take(k + 1) =~= b@.take(k as int).push(b@[k as int]));
                }
            }
            k = k + 1;
        }
        if same {
            proof {
                assert(b@.take(b@.len() as int) =~= b@);
            }
            return true;
        }
        i = i + 1;
    }
    false
}

/// What follows a failed attempt to bring an interface up.
#[derive(Debug, Clone, Copy, PartialEq, Eq)]
pub enum UpRetry {
    /// Wait this many milliseconds, then try again.
    RetryAfter(u64),
    /// Give up and report the error.
    GiveUp,
}

/// Decides what follows failed attempt `attempt` (counting from 0) whose
/// error output was `stderr`: only "Address already in use" (the kernel
/// still holds the UDP port of a deleted interface) is retried, after the
/// backoff delay, and only while attempts remain.
pub fn up_retry_decision(attempt: u8, stderr: &str) -> (r: UpRetry)
    ensures
        (contains_text(stderr@, "Address already in use"@) && attempt + 1 < UP_MAX_ATTEMPTS) ==> r
            == UpRetry::RetryAfter(up_retry_delay(attempt as nat) as u64),
        !(contains_text(stderr@, "Address already in use"@) && attempt + 1 < UP_MAX_ATTEMPTS) ==> r
            == UpRetry::GiveUp,
{
    if text_contains(stderr, "Address already in use") && attempt < UP_MAX_ATTEMPTS - 1 {
        let mut delay: u64 = UP_INITIAL_DELAY_MS;
        let mut k: u8 = 0;
        while k < attempt
            invariant
                k <= attempt,
                delay == up_retry_delay(k as nat),
                delay <= UP_MAX_DELAY_MS,
            decreases attempt - k,
        {
            let doubled = delay * 2;
            delay = if doubled <= UP_MAX_DELAY_MS {
                doubled
            } else {
                UP_MAX_DELAY_MS
            };
            k = k + 1;
        }
        UpRetry::RetryAfter(delay)
    } else {
        UpRetry::GiveUp
    }
}

/// The retry waits never exceed 2 s and never shrink, and an interface is
/// tried at most [`UP_MAX_ATTEMPTS`] times.
pub proof fn lemma_up_retry_bounded(attempt: nat)
    ensures
        UP_INITIAL_DELAY_MS <= up_retry_delay(attempt) <= UP_MAX_DELAY_MS,
        up_retry_delay(attempt) <= up_retry_delay(attempt + 1),
    decreases attempt,
{
    if attempt > 0 {
        lemma_up_retry_bounded((attempt - 1) as nat);
    }
}

/// Why a WireGuard setup failed.
pub enum WgSetupFailure<E> {
    /// A host step failed with this error.
    Step(E),
    /// Bringing the interface up failed for good, with this error output.
    NotUp(String),
}

pub enum WgFailureView<E> {
    Step(E),
    NotUp(Seq<char>),
}

pub open spec fn failure_view<E>(f: WgSetupFailure<E>) -> WgFailureView<E> {
    match f {
        WgSetupFailure::Step(e) => WgFailureView::Step(e),
        WgSetupFailure::NotUp(t) => WgFailureView::NotUp(t@),
    }
}

/// What the host reports after an action. Outside the bringing up of the
/// interface, every report other than `Failed` counts as success.
pub enum WgEvent<E> {
    Succeeded,
    /// `ip -o link show type wireguard` in the namespace succeeded with
    /// this output.
    Listed { output: String },
    /// `ip link set .. up` ran and failed with this error output.
    UpFailed { stderr: String },
    Failed(E),
}

/// The port of the orchestrator's WireGuard endpoint.
pub const PEER_PORT: u16 = 51282;

/// The persistent keepalive of the orchestrator peer, in seconds.
pub const KEEPALIVE: u16 = 45;

/// What the VM's WireGuard interface is set up with.
pub struct WgParams {
    pub private_key: String,
    /// The interface's IPv6 address, as text.
    pub private_ip: String,
    pub peer_public_key: String,
    /// The orchestrator's public IPv4 address.
    pub peer_public_ip: u32,
    /// The orchestrator's IPv6 address on the tunnel, as text.
    pub peer_private_ip: String,
    /// The listen port inside the VM's namespace.
    pub listen_port: u16,
}

pub struct WgParamsView {
    pub private_key: Seq<char>,
    pub private_ip: Seq<char>,
    pub peer_public_key: Seq<char>,
    pub peer_public_ip: u32,
    pub peer_private_ip: Seq<char>,
    pub listen_port: u16,
}

pub open spec fn params_view(p: WgParams) -> WgParamsView {
    WgParamsView {
        private_key: p.private_key@,
        private_ip: p.private_ip@,
        peer_public_key: p.peer_public_key@,
        peer_public_ip: p.peer_public_ip,
        peer_private_ip: p.peer_private_ip@,
        listen_port: p.listen_port,
    }
}

/// A peer of the interface.
pub struct WgPeerConfig {
    pub public_key: String,
    pub endpoint_ip: u32,
    pub endpoint_port: u16,
    pub persistent_keepalive: u16,
    pub allowed_ips: Vec<String>,
}

/// The configuration given to the interface in the global namespace.
pub struct WgInterfaceConfig {
    pub name: String,
    pub private_key: String,
    pub listen_port: u16,
    pub addresses: Vec<String>,
    pub peers: Vec<WgPeerConfig>,
}

pub struct WgPeerView {
    pub public_key: Seq<char>,
    pub endpoint_ip: u32,
    pub endpoint_port: u16,
    pub persistent_keepalive: u16,
    pub allowed_ips: Seq<Seq<char>>,
}

pub struct WgInterfaceView {
    pub name: Seq<char>,
    pub private_key: Seq<char>,
    pub listen_port: u16,
    pub addresses: Seq<Seq<char>>,
    pub peers: Seq<WgPeerView>,
}

pub open spec fn peer_view(p: WgPeerConfig) -> WgPeerView {
    WgPeerView {
        public_key: p.public_key@,
        endpoint_ip: p.endpoint_ip,
        endpoint_port: p.endpoint_port,
        persistent_keepalive: p.persistent_keepalive,
        allowed_ips: names_of(p.allowed_ips@),
    }
}

pub open spec fn interface_view(c: WgInterfaceConfig) -> WgInterfaceView {
    WgInterfaceView {
        name: c.name@,
        private_key: c.private_key@,
        listen_port: c.listen_port,
        addresses: names_of(c.addresses@),
        peers: c.peers@.map_values(|p: WgPeerConfig| peer_view(p)),
    }
}

/// A single address as a network: the address and `/128`.
pub open spec fn host_mask(ip: Seq<char>) -> Seq<char> {
    ip + "/128"@
}

/// The configuration of interface `name`: listen port 0 (the real port is
/// set only inside the namespace, where it cannot collide with other VMs'),
/// its address as a `/128`, and the orchestrator as its one peer, at port
/// 51282 with a 45 s keepalive, allowed only its tunnel address as a `/128`.
pub open spec fn wg_interface_spec(name: Seq<char>, p: WgParamsView) -> WgInterfaceView {
    WgInterfaceView {
        name,
        private_key: p.private_key,
        listen_port: 0,
        addresses: seq![host_mask(p.private_ip)],
        peers: seq![
            WgPeerView {
                public_key: p.peer_public_key,
                endpoint_ip: p.peer_public_ip,
                endpoint_port: PEER_PORT,
                persistent_keepalive: KEEPALIVE,
                allowed_ips: seq![host_mask(p.peer_private_ip)],
            },
        ],
    }
}

fn host_mask_text(ip: &str) -> (r: String)
    ensures
        r@ == host_mask(ip@),
{
    let mut out: Vec<char> = Vec::new();
    push_str(&mut out, ip);
    push_str(&mut out, "/128");
    string_from_chars(out)
}

pub enum WgAction<E> {
    /// List the WireGuard interfaces already in the namespace.
    ListWireGuardInterfaces,
    /// Delete these stale interfaces from the namespace (failures are
    /// ignored), then let the kernel release their ports.
    DeleteStaleInterfaces { names: Vec<String> },
    /// Create the interface in the global namespace.
    CreateInterface,
    /// Configure the interface (still in the global namespace) with this.
    ConfigureInterface { config: WgInterfaceConfig },
    MoveToNamespace,
    /// Set the interface's listen port inside the namespace.
    SetListenPort { port: u16 },
    /// Add this address (with its prefix) to the interface inside the
    /// namespace.
    AddAddress { address: String },
    BringUp,
    /// Wait this long, then try to bring the interface up again.
    WaitThenBringUp { delay_ms: u64 },
    /// Add a route to this destination through the interface, inside the
    /// namespace.
    AddRoute { destination: String },
    /// Run this command to delete the half-made interface.
    DeleteInterface { args: Vec<String> },
    Finish(Result<(), WgSetupFailure<E>>),
}

pub enum WgActionView<E> {
    ListWireGuardInterfaces,
    DeleteStaleInterfaces { names: Seq<Seq<char>> },
    CreateInterface,
    ConfigureInterface(WgInterfaceView),
    MoveToNamespace,
    SetListenPort(u16),
    AddAddress(Seq<char>),
    BringUp,
    WaitThenBringUp { delay_ms: u64 },
    AddRoute(Seq<char>),
    DeleteInterface { args: Seq<Seq<char>> },
    Finish(Result<(), WgFailureView<E>>),
}

pub open spec fn wg_action_view<E>(a: WgAction<E>) -> WgActionView<E> {
    match a {
        WgAction::ListWireGuardInterfaces => WgActionView::ListWireGuardInterfaces,
        WgAction::DeleteStaleInterfaces { names } => WgActionView::DeleteStaleInterfaces { names: names_of(names@) },
        WgAction::CreateInterface => WgActionView::CreateInterface,
        WgAction::ConfigureInterface { config } => WgActionView::ConfigureInterface(interface_view(config)),
        WgAction::MoveToNamespace => WgActionView::MoveToNamespace,
        WgAction::SetListenPort { port } => WgActionView::SetListenPort(port),
        WgAction::AddAddress { address } => WgActionView::AddAddress(address@),
        WgAction::BringUp => WgActionView::BringUp,
        WgAction::WaitThenBringUp { delay_ms } => WgActionView::WaitThenBringUp { delay_ms },
        WgAction::AddRoute { destination } => WgActionView::AddRoute(destination@),
        WgAction::DeleteInterface { args } => WgActionView::DeleteInterface { args: names_of(args@) },
        WgAction::Finish(Ok(())) => WgActionView::Finish(Ok(())),
        WgAction::Finish(Err(f)) => WgActionView::Finish(Err(failure_view(f))),
    }
}

#[derive(Clone, Copy, PartialEq, Eq, Structural, Debug)]
pub enum WgStage {
    Listing,
    DeletingStale,
    Creating,
    Configuring,
    Moving,
    SettingPort,
    AddingAddress,
    BringingUp,
    AddingRoute,
    /// A step failed after the interface was created; it is being deleted.
    Deleting,
    Finished,
}

/// Sets up the WireGuard interface of a VM inside the VM's namespace.
pub struct WgSetup<'a, E> {
    stage: WgStage,
    guard: InterfaceGuard<'a>,
    namespace: &'a str,
    params: WgParams,
    attempt: u8,
    pending: Option<WgSetupFailure<E>>,
}

pub struct WgSetupView<E> {
    pub stage: WgStage,
    /// Where the interface lives, and whether it is to be kept.
    pub guard: InterfaceGuardView,
    pub namespace: Seq<char>,
    pub params: WgParamsView,
    /// The number of failed attempts to bring the interface up so far.
    pub attempt: nat,
    /// While deleting: the failure to report afterwards.
    pub pending: Option<WgFailureView<E>>,
}

impl<'a, E> View for WgSetup<'a, E> {
    type V = WgSetupView<E>;

    closed spec fn view(&self) -> WgSetupView<E> {
        WgSetupView {
            stage: self.stage,
            guard: self.guard@,
            namespace: self.namespace@,
            params: params_view(self.params),
            attempt: self.attempt as nat,
            pending: match self.pending {
                Some(f) => Some(failure_view(f)),
                None => None,
            },
        }
    }
}

pub open spec fn wg_at<E>(s: WgSetupView<E>, stage: WgStage) -> WgSetupView<E> {
    WgSetupView { stage, pending: None, ..s }
}

/// After a failure: delete the interface from where it lives, then report.
pub open spec fn wg_fail<E>(s: WgSetupView<E>, f: WgFailureView<E>) -> (WgSetupView<E>, WgActionView<E>) {
    (
        WgSetupView { stage: WgStage::Deleting, pending: Some(f), ..s },
        WgActionView::DeleteInterface { args: cleanup_command_of(s.guard)->0 },
    )
}

/// Whether the interface exists in the global namespace or the VM's.
pub open spec fn interface_created(stage: WgStage) -> bool {
    match stage {
        WgStage::Configuring | WgStage::Moving | WgStage::SettingPort | WgStage::AddingAddress
        | WgStage::BringingUp | WgStage::AddingRoute => true,
        _ => false,
    }
}

pub open spec fn wg_start<E>(name: Seq<char>, namespace: Seq<char>, params: WgParamsView) -> (
    WgSetupView<E>,
    WgActionView<E>,
) {
    (
        WgSetupView {
            stage: WgStage::Listing,
            guard: InterfaceGuardView { name, namespace: None, disarmed: false },
            namespace,
            params,
            attempt: 0,
            pending: None,
        },
        WgActionView::ListWireGuardInterfaces,
    )
}

pub open spec fn wg_next<E>(s: WgSetupView<E>, ev: WgEvent<E>) -> (WgSetupView<E>, WgActionView<E>) {
    let finished = wg_at(s, WgStage::Finished);
    match s.stage {
        WgStage::Listing => match ev {
            WgEvent::Listed { output } => {
                let names = listed_interfaces(text_lines(output@));
                if names.len() == 0 {
                    (wg_at(s, WgStage::Creating), WgActionView::CreateInterface)
                } else {
                    (wg_at(s, WgStage::DeletingStale), WgActionView::DeleteStaleInterfaces { names })
                }
            },
            _ => (wg_at(s, WgStage::Creating), WgActionView::CreateInterface),
        },
        WgStage::DeletingStale => (wg_at(s, WgStage::Creating), WgActionView::CreateInterface),
        WgStage::Creating => match ev {
            WgEvent::Failed(e) => (finished, WgActionView::Finish(Err(WgFailureView::Step(e)))),
            _ => (
                wg_at(s, WgStage::Configuring),
                WgActionView::ConfigureInterface(wg_interface_spec(s.guard.name, s.params)),
            ),
        },
        WgStage::Configuring => match ev {
            WgEvent::Failed(e) => wg_fail(s, WgFailureView::Step(e)),
            _ => (wg_at(s, WgStage::Moving), WgActionView::MoveToNamespace),
        },
        WgStage::Moving => match ev {
            WgEvent::Failed(e) => wg_fail(s, WgFailureView::Step(e)),
            _ => (
                WgSetupView {
                    stage: WgStage::SettingPort,
                    guard: InterfaceGuardView { namespace: Some(s.namespace), ..s.guard },
                    pending: None,
                    ..s
                },
                WgActionView::SetListenPort(s.params.listen_port),
            ),
        },
        WgStage::SettingPort => match ev {
            WgEvent::Failed(e) => wg_fail(s, WgFailureView::Step(e)),
            _ => (wg_at(s, WgStage::AddingAddress), WgActionView::AddAddress(host_mask(s.params.private_ip))),
        },
        WgStage::AddingAddress => match ev {
            WgEvent::Failed(e) => wg_fail(s, WgFailureView::Step(e)),
            _ => (wg_at(s, WgStage::BringingUp), WgActionView::BringUp),
        },
        WgStage::BringingUp => match ev {
            WgEvent::Failed(e) => wg_fail(s, WgFailureView::Step(e)),
            WgEvent::UpFailed { stderr } => {
                if contains_text(stderr@, "Address already in use"@) && s.attempt + 1 < UP_MAX_ATTEMPTS {
                    (
                        WgSetupView { attempt: s.attempt + 1, pending: None, ..s },
                        WgActionView::WaitThenBringUp { delay_ms: up_retry_delay(s.attempt) as u64 },
                    )
                } else {
                    wg_fail(s, WgFailureView::NotUp(stderr@))
                }
            },
            _ => (
                wg_at(s, WgStage::AddingRoute),
                WgActionView::AddRoute(host_mask(s.params.peer_private_ip)),
            ),
        },
        WgStage::AddingRoute => match ev {
            WgEvent::Failed(e) => wg_fail(s, WgFailureView::Step(e)),
            _ => (
                WgSetupView {
                    stage: WgStage::Finished,
                    guard: InterfaceGuardView { disarmed: true, ..s.guard },
                    pending: None,
                    ..s
                },
                WgActionView::Finish(Ok(())),
            ),
        },
        WgStage::Deleting => match s.pending {
            Some(f) => (finished, WgActionView::Finish(Err(f))),
            None => (finished, WgActionView::Finish(Ok(()))),
        },
        WgStage::Finished => (s, WgActionView::Finish(Ok(()))),
    }
}

/// Once the interface exists, any failure deletes it from where it then
/// lives (the global namespace before the move, the VM's namespace after
/// it), and the failure is reported after the deletion, whatever its
/// outcome.
pub proof fn lemma_wg_failure_deletes_interface<E>(s: WgSetupView<E>, e: E, o: WgEvent<E>)
    requires
        interface_created(s.stage),
        !s.guard.disarmed,
        s.guard.namespace is None <==> (s.stage == WgStage::Configuring || s.stage == WgStage::Moving),
        s.guard.namespace is Some ==> s.guard.namespace == Some(s.namespace),
    ensures
        ({
            let (t, a) = wg_next(s, WgEvent::Failed(e));
            let (u, b) = wg_next(t, o);
            &&& a == WgActionView::<E>::DeleteInterface {
                args: if s.stage == WgStage::Configuring || s.stage == WgStage::Moving {
                    seq!["ip"@, "link"@, "del"@, s.guard.name]
                } else {
                    seq!["ip"@, "netns"@, "exec"@, s.namespace, "ip"@, "link"@, "del"@, s.guard.name]
                },
            }
            &&& b == WgActionView::<E>::Finish(Err(WgFailureView::Step(e)))
            &&& u.stage == WgStage::Finished
        }),
{
}

/// Bringing the interface up is retried exactly as `up_retry_decision`
/// says: after a failed attempt the machine waits the decided delay and
/// tries again, or gives up, deletes the interface and reports the error
/// output.
pub proof fn lemma_wg_up_retried_as_decided<E>(s: WgSetupView<E>, stderr: String)
    requires
        s.stage == WgStage::BringingUp,
        !s.guard.disarmed,
    ensures
        ({
            let (t, a) = wg_next(s, WgEvent::UpFailed { stderr });
            let retry = contains_text(stderr@, "Address already in use"@) && s.attempt + 1 < UP_MAX_ATTEMPTS;
            &&& retry ==> a == WgActionView::<E>::WaitThenBringUp { delay_ms: up_retry_delay(s.attempt) as u64 }
                && t.stage == WgStage::BringingUp && t.attempt == s.attempt + 1
            &&& !retry ==> a == WgActionView::<E>::DeleteInterface { args: cleanup_command_of(s.guard)->0 }
                && t.pending == Some(WgFailureView::<E>::NotUp(stderr@))
        }),
{
}

/// When every step succeeds, the interface is created and configured in
/// the global namespace with listen port 0 and the orchestrator as its one
/// peer (port 51282, keepalive 45 s, its tunnel address as a `/128`), moved
/// into the namespace, given its listen port and its `/128` address there,
/// brought up, given its route to the peer, and kept.
pub proof fn lemma_wg_success_configures_interface<E>(name: Seq<char>, ns: Seq<char>, p: WgParamsView)
    ensures
        ({
            let (s0, a0) = wg_start::<E>(name, ns, p);
            let (s1, a1) = wg_next(s0, WgEvent::<E>::Succeeded);
            let (s2, a2) = wg_next(s1, WgEvent::<E>::Succeeded);
            let (s3, a3) = wg_next(s2, WgEvent::<E>::Succeeded);
            let (s4, a4) = wg_next(s3, WgEvent::<E>::Succeeded);
            let (s5, a5) = wg_next(s4, WgEvent::<E>::Succeeded);
            let (s6, a6) = wg_next(s5, WgEvent::<E>::Succeeded);
            let (s7, a7) = wg_next(s6, WgEvent::<E>::Succeeded);
            let (s8, a8) = wg_next(s7, WgEvent::<E>::Succeeded);
            &&& a1 == WgActionView::<E>::CreateInterface
            &&& a2 == WgActionView::<E>::ConfigureInterface(wg_interface_spec(name, p))
            &&& a3 == WgActionView::<E>::MoveToNamespace
            &&& a4 == WgActionView::<E>::SetListenPort(p.listen_port)
            &&& a5 == WgActionView::<E>::AddAddress(host_mask(p.private_ip))
            &&& a6 == WgActionView::<E>::BringUp
            &&& a7 == WgActionView::<E>::AddRoute(host_mask(p.peer_private_ip))
            &&& a8 == WgActionView::<E>::Finish(Ok(()))
            &&& s8.guard.disarmed
            &&& s8.guard.namespace == Some(ns)
        }),
{
}

impl<'a, E> WgSetup<'a, E> {
    #[verifier::type_invariant]
    spec fn well_formed(self) -> bool {
        &&& (self.stage == WgStage::Deleting) == (self.pending is Some)
        &&& self.stage != WgStage::Finished ==> !self.guard.disarmed
    }

    /// Starts setting up the interface `name` for the namespace `namespace`
    /// with `params`.
    pub fn start(name: &'a str, namespace: &'a str, params: WgParams) -> (r: (Self, WgAction<E>))
        ensures
            (r.0@, wg_action_view(r.1)) == wg_start::<E>(name@, namespace@, params_view(params)),
    {
        (
            WgSetup {
                stage: WgStage::Listing,
                guard: InterfaceGuard::new(name),
                namespace,
                params,
                attempt: 0,
                pending: None,
            },
            WgAction::ListWireGuardInterfaces,
        )
    }

    /// The configuration of the interface in the global namespace.
    fn interface_config(&self) -> (r: WgInterfaceConfig)
        ensures
            interface_view(r) == wg_interface_spec(self@.guard.name, self@.params),
    {
        let peer = WgPeerConfig {
            public_key: string_of(self.params.peer_public_key.as_str()),
            endpoint_ip: self.params.peer_public_ip,
            endpoint_port: PEER_PORT,
            persistent_keepalive: KEEPALIVE,
            allowed_ips: vec![host_mask_text(self.params.peer_private_ip.as_str())],
        };
        let r = WgInterfaceConfig {
            name: string_of(self.guard.name),
            private_key: string_of(self.params.private_key.as_str()),
            listen_port: 0,
            addresses: vec![host_mask_text(self.params.private_ip.as_str())],
            peers: vec![peer],
        };
        assert(names_of(r.addresses@) =~= seq![host_mask(self@.params.private_ip)]);
        assert(r.peers@.map_values(|p: WgPeerConfig| peer_view(p)) =~= wg_interface_spec(
            self@.guard.name,
            self@.params,
        ).peers) by {
            assert(names_of(r.peers@[0].allowed_ips@) =~= seq![host_mask(self@.params.peer_private_ip)]);
        }
        r
    }

    pub fn is_finished(&self) -> (r: bool)
        ensures
            r == (self@.stage == WgStage::Finished),
    {
        self.stage == WgStage::Finished
    }

    fn moved(self, stage: WgStage) -> (r: Self)
        requires
            stage != WgStage::Deleting,
            stage != WgStage::Finished ==> !self.guard@.disarmed,
        ensures
            r@ == wg_at(self@, stage),
    {
        WgSetup { stage, guard: self.guard, namespace: self.namespace, params: self.params, attempt: self.attempt, pending: None }
    }

    fn failed(self, f: WgSetupFailure<E>) -> (r: (Self, WgAction<E>))
        requires
            !self.guard@.disarmed,
        ensures
            (r.0@, wg_action_view(r.1)) == wg_fail(self@, failure_view(f)),
    {
        let args = match self.guard.cleanup_command() {
            Some(args) => args,
            None => Vec::new(),
        };
        (
            WgSetup {
                stage: WgStage::Deleting,
                guard: self.guard,
                namespace: self.namespace,
                params: self.params,
                attempt: self.attempt,
                pending: Some(f),
            },
            WgAction::DeleteInterface { args },
        )
    }

    /// Takes the outcome of the last action and returns the next one.
    pub fn step(&mut self, event: WgEvent<E>) -> (r: WgAction<E>)
        requires
            old(self)@.stage != WgStage::Finished,
        ensures
            (final(self)@, wg_action_view(r)) == wg_next(old(self)@, event),
    {
        let mut cur = WgSetup {
            stage: WgStage::Finished,
            guard: InterfaceGuard { name: self.namespace, namespace: None, disarmed: true },
            namespace: self.namespace,
            params: WgParams {
                private_key: String::new(),
                private_ip: String::new(),
                peer_public_key: String::new(),
                peer_public_ip: 0,
                peer_private_ip: String::new(),
                listen_port: 0,
            },
            attempt: 0,
            pending: None,
        };
        std::mem::swap(&mut cur, self);
        proof {
            use_type_invariant(&cur);
        }
        let (next, action) = match cur.stage {
            WgStage::Listing => match event {
                WgEvent::Listed { output } => {
                    let names = parse_wireguard_interfaces(output.as_str());
                    if names.len() == 0 {
                        (cur.moved(WgStage::Creating), WgAction::CreateInterface)
                    } else {
                        (cur.moved(WgStage::DeletingStale), WgAction::DeleteStaleInterfaces { names })
                    }
                },
                _ => (cur.moved(WgStage::Creating), WgAction::CreateInterface),
            },
            WgStage::DeletingStale => (cur.moved(WgStage::Creating), WgAction::CreateInterface),
            WgStage::Creating => match event {
                WgEvent::Failed(e) => (cur.moved(WgStage::Finished), WgAction::Finish(Err(WgSetupFailure::Step(e)))),
                _ => {
                    let config = cur.interface_config();
                    (cur.moved(WgStage::Configuring), WgAction::ConfigureInterface { config })
                },
            },
            WgStage::Configuring => match event {
                WgEvent::Failed(e) => cur.failed(WgSetupFailure::Step(e)),
                _ => (cur.moved(WgStage::Moving), WgAction::MoveToNamespace),
            },
            WgStage::Moving => match event {
                WgEvent::Failed(e) => cur.failed(WgSetupFailure::Step(e)),
                _ => {
                    let mut guard = cur.guard;
                    guard.moved_to_namespace(cur.namespace);
                    let port = cur.params.listen_port;
                    let m = WgSetup {
                        stage: WgStage::SettingPort,
                        guard,
                        namespace: cur.namespace,
                        params: cur.params,
                        attempt: cur.attempt,
                        pending: None,
                    };
                    (m, WgAction::SetListenPort { port })
                },
            },
            WgStage::SettingPort => match event {
                WgEvent::Failed(e) => cur.failed(WgSetupFailure::Step(e)),
                _ => {
                    let address = host_mask_text(cur.params.private_ip.as_str());
                    (cur.moved(WgStage::AddingAddress), WgAction::AddAddress { address })
                },
            },
            WgStage::AddingAddress => match event {
                WgEvent::Failed(e) => cur.failed(WgSetupFailure::Step(e)),
                _ => (cur.moved(WgStage::BringingUp), WgAction::BringUp),
            },
            WgStage::BringingUp => match event {
                WgEvent::Failed(e) => cur.failed(WgSetupFailure::Step(e)),
                WgEvent::UpFailed { stderr } => {
                    match up_retry_decision(cur.attempt, stderr.as_str()) {
                        UpRetry::RetryAfter(delay_ms) => {
                            let m = WgSetup {
                                stage: WgStage::BringingUp,
                                guard: cur.guard,
                                namespace: cur.namespace,
                                params: cur.params,
                                attempt: cur.attempt + 1,
                                pending: None,
                            };
                            (m, WgAction::WaitThenBringUp { delay_ms })
                        },
                        UpRetry::GiveUp => cur.failed(WgSetupFailure::NotUp(stderr)),
                    }
                },
                _ => {
                    let destination = host_mask_text(cur.params.peer_private_ip.as_str());
                    (cur.moved(WgStage::AddingRoute), WgAction::AddRoute { destination })
                },
            },
            WgStage::AddingRoute => match event {
                WgEvent::Failed(e) => cur.failed(WgSetupFailure::Step(e)),
                _ => {
                    let mut guard = cur.guard;
                    guard.disarm();
                    let m = WgSetup {
                        stage: WgStage::Finished,
                        guard,
                        namespace: cur.namespace,
                        params: cur.params,
                        attempt: cur.attempt,
                        pending: None,
                    };
                    (m, WgAction::Finish(Ok(())))
                },
            },
            WgStage::Deleting => {
                let WgSetup { stage, guard, namespace, params, attempt, pending } = cur;
                let m = WgSetup { stage: WgStage::Finished, guard, namespace, params, attempt, pending: None };
                match pending {
                    Some(f) => (m, WgAction::Finish(Err(f))),
                    None => (m, WgAction::Finish(Ok(()))),
                }
            },
            WgStage::Finished => {
                proof {
                    assert(false);
                }
                (cur.moved(WgStage::Finished), WgAction::Finish(Ok(())))
            },
        };
        *self = next;
        action
    }
}

} // verus!
