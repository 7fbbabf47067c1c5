//! The guest's `/etc/environment`: user environment variables rendered as
//! `KEY=VALUE` lines, sorted by key.

use crate::text::{chars_of, push_str, string_from_chars};
use std::collections::HashMap;
use vstd::prelude::*;

verus! {

/// Lexicographic order on texts, character by character by code point.
/// This is the order of Rust's `String` comparison: UTF-8 keeps the order of
/// code points, so comparing the bytes compares the characters.
pub open spec fn text_lt(a: Seq<char>, b: Seq<char>) -> bool
    decreases a.len(),
{
    if a.len() == 0 {
        b.len() > 0
    } else if b.len() == 0 {
        false
    } else if a[0] != b[0] {
        a[0] < b[0]
    } else {
        text_lt(a.drop_first(), b.drop_first())
    }
}

/// No text comes before itself.
pub proof fn lemma_text_lt_irreflexive(a: Seq<char>)
    ensures
        !text_lt(a, a),
    decreases a.len(),
{
    if a.len() > 0 {
        lemma_text_lt_irreflexive(a.drop_first());
    }
}

/// The order is transitive.
pub proof fn lemma_text_lt_transitive(a: Seq<char>, b: Seq<char>, c: Seq<char>)
    requires
        text_lt(a, b),
        text_lt(b, c),
    ensures
        text_lt(a, c),
    decreases a.len(),
{
    if a.len() > 0 && b.len() > 0 && c.len() > 0 && a[0] == b[0] && b[0] == c[0] {
        lemma_text_lt_transitive(a.drop_first(), b.drop_first(), c.drop_first());
    }
}

/// Of two distinct texts, one comes first.
pub proof fn lemma_text_lt_total(a: Seq<char>, b: Seq<char>)
    requires
        a != b,
    ensures
        text_lt(a, b) || text_lt(b, a),
    decreases a.len(),
{
    if a.len() == 0 && b.len() == 0 {
        assert(a =~= b);
    }
    if a.len() > 0 && b.len() > 0 && a[0] == b[0] {
        if a.drop_first() == b.drop_first() {
            assert(a =~= seq![a[0]] + a.drop_first());
            assert(b =~= seq![b[0]] + b.drop_first());
        }
        lemma_text_lt_total(a.drop_first(), b.drop_first());
    }
}

/// The order is asymmetric.
pub proof fn lemma_text_lt_asymmetric(a: Seq<char>, b: Seq<char>)
    requires
        text_lt(a, b),
    ensures
        !text_lt(b, a),
{
    if text_lt(b, a) {
        lemma_text_lt_transitive(a, b, a);
        lemma_text_lt_irreflexive(a);
    }
}

/// An environment entry: a key and its value.
pub type EnvEntry = (Seq<char>, Seq<char>);

/// The keys strictly increase along the sequence.
pub open spec fn sorted_by_key(s: Seq<EnvEntry>) -> bool {
    forall|i: int, j: int| 0 <= i < j < s.len() ==> text_lt(#[trigger] s[i].0, #[trigger] s[j].0)
}

/// `s` lists the entries of `m`: each element is an entry of `m`, and each
/// key of `m` occurs in `s`.
pub open spec fn lists_entries(m: Map<Seq<char>, Seq<char>>, s: Seq<EnvEntry>) -> bool {
    &&& forall|i: int| 0 <= i < s.len() ==> #[trigger] m.contains_key(s[i].0) && m[s[i].0] == s[i].1
    &&& forall|k: Seq<char>| #[trigger] m.contains_key(k) ==> exists|i: int| 0 <= i < s.len() && s[i].0 == k
}

/// The file text: one `KEY=VALUE` line per entry, in order.
pub open spec fn env_lines(s: Seq<EnvEntry>) -> Seq<char>
    decreases s.len(),
{
    if s.len() == 0 {
        Seq::empty()
    } else {
        env_lines(s.drop_last()) + s.last().0 + seq!['='] + s.last().1 + seq!['\n']
    }
}

/// The file for the variables `m`: the lines of the entries of `m`, sorted by
/// key.
pub open spec fn is_env_file(m: Map<Seq<char>, Seq<char>>, text: Seq<char>) -> bool {
    exists|s: Seq<EnvEntry>| sorted_by_key(s) && lists_entries(m, s) && text == env_lines(s)
}

/// The last keys of two sorted listings of the same map agree.
proof fn lemma_last_keys_agree(m: Map<Seq<char>, Seq<char>>, s1: Seq<EnvEntry>, s2: Seq<EnvEntry>)
    requires
        sorted_by_key(s1),
        lists_entries(m, s1),
        sorted_by_key(s2),
        lists_entries(m, s2),
        s1.len() > 0,
        s2.len() > 0,
    ensures
        s1.last() == s2.last(),
{
    let n1 = s1.len() - 1;
    let n2 = s2.len() - 1;
    let k1 = s1[n1].0;
    let k2 = s2[n2].0;
    assert(m.contains_key(k1));
    assert(m.contains_key(k2));
    if k1 != k2 {
        let i = choose|i: int| 0 <= i < s1.len() && s1[i].0 == k2;
        let j = choose|j: int| 0 <= j < s2.len() && s2[j].0 == k1;
        assert(text_lt(s1[i].0, s1[n1].0));
        assert(text_lt(s2[j].0, s2[n2].0));
        lemma_text_lt_asymmetric(k2, k1);
    }
}

/// Without its last entry, a sorted listing lists the map without the last
/// key.
proof fn lemma_listing_drop_last(m: Map<Seq<char>, Seq<char>>, s: Seq<EnvEntry>)
    requires
        sorted_by_key(s),
        lists_entries(m, s),
        s.len() > 0,
    ensures
        sorted_by_key(s.drop_last()),
        lists_entries(m.remove(s.last().0), s.drop_last()),
{
    let n = s.len() - 1;
    let k = s[n].0;
    let mm = m.remove(k);
    let t = s.drop_last();
    assert forall|i: int| 0 <= i < t.len() implies #[trigger] mm.contains_key(t[i].0) && mm[t[i].0]
        == t[i].1 by {
        assert(text_lt(s[i].0, s[n].0));
        lemma_text_lt_irreflexive(k);
        assert(m.contains_key(s[i].0));
    }
    assert forall|kk: Seq<char>| #[trigger] mm.contains_key(kk) implies exists|i: int|
        0 <= i < t.len() && t[i].0 == kk by {
        assert(m.contains_key(kk));
        let i = choose|i: int| 0 <= i < s.len() && s[i].0 == kk;
        assert(t[i].0 == kk);
    }
}

/// There is one sorted listing of a map's entries, so the file is a function
/// of the variables alone: rendering the same variables twice, whatever
/// order the map yields them in, gives the same text.
pub proof fn lemma_env_listing_unique(m: Map<Seq<char>, Seq<char>>, s1: Seq<EnvEntry>, s2: Seq<EnvEntry>)
    requires
        sorted_by_key(s1),
        lists_entries(m, s1),
        sorted_by_key(s2),
        lists_entries(m, s2),
    ensures
        s1 == s2,
    decreases s1.len(),
{
    if s1.len() == 0 {
        if s2.len() > 0 {
            assert(m.contains_key(s2[0].0));
        }
        assert(s1 =~= s2);
    } else if s2.len() == 0 {
        assert(m.contains_key(s1[0].0));
    } else {
        lemma_last_keys_agree(m, s1, s2);
        lemma_listing_drop_last(m, s1);
        lemma_listing_drop_last(m, s2);
        lemma_env_listing_unique(m.remove(s1.last().0), s1.drop_last(), s2.drop_last());
        assert(s1 =~= s1.drop_last().push(s1.last()));
        assert(s2 =~= s2.drop_last().push(s2.last()));
    }
}

/// The file rendered for a set of variables is determined by the variables.
pub proof fn lemma_env_file_deterministic(m: Map<Seq<char>, Seq<char>>, text1: Seq<char>, text2: Seq<char>)
    requires
        is_env_file(m, text1),
        is_env_file(m, text2),
    ensures
        text1 == text2,
{
    let s1 = choose|s: Seq<EnvEntry>| sorted_by_key(s) && lists_entries(m, s) && text1 == env_lines(s);
    let s2 = choose|s: Seq<EnvEntry>| sorted_by_key(s) && lists_entries(m, s) && text2 == env_lines(s);
    lemma_env_listing_unique(m, s1, s2);
}

/// The entries of a map of strings, each exactly once, in the map's own
/// (arbitrary) order (`HashMap::into_iter` on a copy, collected).
#[verifier::external_body]
fn env_entries(env_vars: &HashMap<String, String>) -> (r: Vec<(String, String)>)
    ensures
        forall|i: int|
            0 <= i < r@.len() ==> #[trigger] env_vars.deep_view().contains_key(r@[i].0@)
                && env_vars.deep_view()[r@[i].0@] == r@[i].1@,
        forall|i: int, j: int| 0 <= i < j < r@.len() ==> #[trigger] r@[i].0@ != #[trigger] r@[j].0@,
        forall|k: Seq<char>| #[trigger]
            env_vars.deep_view().contains_key(k) ==> exists|i: int| 0 <= i < r@.len() && r@[i].0@ == k,
{
    env_vars.clone().into_iter().collect()
}

/// Whether `a` comes before `b` in the order of [`text_lt`].
fn text_less(a: &Vec<char>, b: &Vec<char>) -> (r: bool)
    ensures
        r == text_lt(a@, b@),
{
    let mut k: usize = 0;
    assert(a@.skip(0) =~= a@);
    assert(b@.skip(0) =~= b@);
    while k < a.len() && k < b.len() && a[k] == b[k]
        invariant
            k <= a.len(),
            k <= b.len(),
            text_lt(a@, b@) == text_lt(a@.skip(k as int), b@.skip(k as int)),
        decreases a.len() - k,
    {
        assert(a@.skip(k + 1) =~= a@.skip(k as int).drop_first());
        assert(b@.skip(k + 1) =~= b@.skip(k as int).drop_first());
        k = k + 1;
    }
    let ghost sa = a@.skip(k as int);
    let ghost sb = b@.skip(k as int);
    if k == a.len() {
        k < b.len()
    } else if k == b.len() {
        false
    } else {
        assert(sa[0] == a@[k as int]);
        assert(sb[0] == b@[k as int]);
        a[k] < b[k]
    }
}

/// The position at which key `i` goes into the sorted `order`.
fn insert_position(keys: &Vec<Vec<char>>, order: &Vec<usize>, i: usize) -> (p: usize)
    requires
        i < keys@.len(),
        forall|a: int| 0 <= a < order@.len() ==> order@[a] < keys@.len(),
        forall|a: int|
            0 <= a < order@.len() ==> #[trigger] keys@[order@[a] as int]@ != keys@[i as int]@,
        forall|a: int, b: int|
            0 <= a < b < order@.len() ==> text_lt(
                #[trigger] keys@[order@[a] as int]@,
                #[trigger] keys@[order@[b] as int]@,
            ),
    ensures
        p <= order@.len(),
        forall|a: int| 0 <= a < p ==> text_lt(#[trigger] keys@[order@[a] as int]@, keys@[i as int]@),
        forall|a: int|
            p <= a < order@.len() ==> text_lt(keys@[i as int]@, #[trigger] keys@[order@[a] as int]@),
{
    let mut p: usize = 0;
    while p < order.len() && !text_less(&keys[i], &keys[order[p]])
        invariant
            p <= order@.len(),
            i < keys@.len(),
            forall|a: int| 0 <= a < order@.len() ==> order@[a] < keys@.len(),
            forall|a: int|
                0 <= a < order@.len() ==> #[trigger] keys@[order@[a] as int]@ != keys@[i as int]@,
            forall|a: int|
                0 <= a < p ==> text_lt(#[trigger] keys@[order@[a] as int]@, keys@[i as int]@),
        decreases order@.len() - p,
    {
        proof {
            lemma_text_lt_total(keys@[order@[p as int] as int]@, keys@[i as int]@);
        }
        p = p + 1;
    }
    proof {
        assert forall|a: int| p <= a < order@.len() implies text_lt(
            keys@[i as int]@,
            #[trigger] keys@[order@[a] as int]@,
        ) by {
            if a > p {
                lemma_text_lt_transitive(
                    keys@[i as int]@,
                    keys@[order@[p as int] as int]@,
                    keys@[order@[a] as int]@,
                );
            }
        }
    }
    p
}

/// Renders environment variables in `/etc/environment` format: plain
/// `KEY=VALUE` lines, no `export`, no shell quoting (PAM's `pam_env` reads
/// the file; no shell evaluates it), sorted by key for deterministic diffs.
pub fn render_env_file(env_vars: &HashMap<String, String>) -> (r: String)
    ensures
        is_env_file(env_vars.deep_view(), r@),
{
    let entries = env_entries(env_vars);
    let ghost m = env_vars.deep_view();
    let ghost ev = entries@.map_values(|e: (String, String)| (e.0@, e.1@));
    let n = entries.len();
    let mut keys: Vec<Vec<char>> = Vec::new();
    for t in 0..n
        invariant
            n == entries@.len(),
            keys@.len() == t,
            forall|a: int| 0 <= a < t ==> #[trigger] keys@[a]@ == entries@[a].0@,
    {
        keys.push(chars_of(entries[t].0.as_str()));
    }
    let mut order: Vec<usize> = Vec::new();
    for i in 0..n
        invariant
            n == entries@.len(),
            keys@.len() == n,
            forall|a: int| 0 <= a < n ==> #[trigger] keys@[a]@ == entries@[a].0@,
            forall|a: int, b: int| 0 <= a < b < n ==> #[trigger] entries@[a].0@ != #[trigger] entries@[b].0@,
            order@.len() == i,
            forall|a: int| 0 <= a < order@.len() ==> order@[a] < i,
            forall|t: usize| t < i ==> #[trigger] order@.contains(t),
            forall|a: int, b: int|
                0 <= a < b < order@.len() ==> text_lt(
                    #[trigger] keys@[order@[a] as int]@,
                    #[trigger] keys@[order@[b] as int]@,
                ),
    {
        proof {
            assert forall|a: int| 0 <= a < order@.len() implies #[trigger] keys@[order@[a] as int]@
                != keys@[i as int]@ by {
                assert(entries@[order@[a] as int].0@ != entries@[i as int].0@);
            }
        }
        let p = insert_position(&keys, &order, i);
        let ghost old_order = order@;
        order.insert(p, i);
        proof {
            assert forall|t: usize| t < i + 1 implies #[trigger] order@.contains(t) by {
                if t == i {
                    assert(order@[p as int] == i);
                } else {
                    assert(old_order.contains(t));
                    let a = choose|a: int| 0 <= a < old_order.len() && old_order[a] == t;
                    if a < p {
                        assert(order@[a] == t);
                    } else {
                        assert(order@[a + 1] == t);
                    }
                }
            }
            assert forall|a: int, b: int| 0 <= a < b < order@.len() implies text_lt(
                #[trigger] keys@[order@[a] as int]@,
                #[trigger] keys@[order@[b] as int]@,
            ) by {
                if b < p {
                    assert(order@[a] == old_order[a] && order@[b] == old_order[b]);
                } else if b == p {
                    assert(order@[a] == old_order[a]);
                } else if a < p {
                    assert(order@[a] == old_order[a] && order@[b] == old_order[b - 1]);
                } else if a == p {
                    assert(order@[b] == old_order[b - 1]);
                } else {
                    assert(order@[a] == old_order[a - 1] && order@[b] == old_order[b - 1]);
                }
            }
        }
    }
    let ghost s = Seq::new(n as nat, |a: int| ev[order@[a] as int]);
    let mut out: Vec<char> = Vec::new();
    for a in 0..n
        invariant
            n == entries@.len(),
            order@.len() == n,
            forall|b: int| 0 <= b < n ==> order@[b] < n,
            s.len() == n,
            forall|b: int| 0 <= b < n ==> #[trigger] s[b] == ev[order@[b] as int],
            ev == entries@.map_values(|e: (String, String)| (e.0@, e.1@)),
            out@ == env_lines(s.take(a as int)),
    {
        let e = &entries[order[a]];
        push_str(&mut out, e.0.as_str());
        out.push('=');
        push_str(&mut out, e.1.as_str());
        out.push('\n');
        proof {
            let sa = s.take(a + 1);
            assert(sa.drop_last() =~= s.take(a as int));
            assert(sa.last() == s[a as int]);
        }
    }
    proof {
        assert(s.take(n as int) =~= s);
        assert(sorted_by_key(s)) by {
            assert forall|i: int, j: int| 0 <= i < j < s.len() implies text_lt(
                #[trigger] s[i].0,
                #[trigger] s[j].0,
            ) by {
                assert(keys@[order@[i] as int]@ == s[i].0);
                assert(keys@[order@[j] as int]@ == s[j].0);
            }
        }
        assert(lists_entries(m, s)) by {
            assert forall|i: int| 0 <= i < s.len() implies #[trigger] m.contains_key(s[i].0)
                && m[s[i].0] == s[i].1 by {
                let x = order@[i] as int;
                assert(s[i] == ev[x]);
                assert(ev[x] == (entries@[x].0@, entries@[x].1@));
                assert(env_vars.deep_view().contains_key(entries@[x].0@));
            }
            assert forall|k: Seq<char>| #[trigger] m.contains_key(k) implies exists|i: int|
                0 <= i < s.len() && s[i].0 == k by {
                let t = choose|t: int| 0 <= t < entries@.len() && entries@[t].0@ == k;
                assert(order@.contains(t as usize));
                let a = choose|a: int| 0 <= a < order@.len() && order@[a] == t as usize;
                assert(s[a].0 == k);
            }
        }
    }
    string_from_chars(out)
}

} // verus!
