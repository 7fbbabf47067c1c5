//! The local cache of snapshot files downloaded from object storage: the
//! reference counts that pin files in use, the space the cache takes, and
//! the choice of the file to evict when room is needed.

use crate::io_error::io_error_text;
use crate::text::{chars_of, decimal, push_decimal, push_str, string_from_chars};
use vstd::prelude::*;

verus! {

/// The prefix of the temporary files that downloads write to. Such files
/// are never evicted, and are removed on startup.
pub open spec fn temp_file_prefix() -> Seq<char> {
    ".tmp."@
}

/// Whether a file name is that of an in-progress download.
pub open spec fn is_temp_name(name: Seq<char>) -> bool {
    name.len() >= 5 && name.subrange(0, 5) == temp_file_prefix()
}

/// Whether `name` starts with the temporary-file prefix.
pub fn is_temp_file_name(name: &str) -> (r: bool)
    ensures
        r == is_temp_name(name@),
{
    let chars = chars_of(name);
    let prefix = chars_of(".tmp.");
    proof {
        reveal_strlit(".tmp.");
    }
    if chars.len() < 5 {
        return false;
    }
    let mut i: usize = 0;
    while i < 5
        invariant
            i <= 5,
            chars@.len() >= 5,
            chars@ == name@,
            prefix@ == temp_file_prefix(),
            prefix@.len() == 5,
            chars@.subrange(0, i as int) == prefix@.subrange(0, i as int),
        decreases 5 - i,
    {
        if chars[i] != prefix[i] {
            assert(chars@.subrange(0, 5)[i as int] == chars@[i as int]);
            assert(chars@.subrange(0, 5) != temp_file_prefix());
            return false;
        }
        assert(chars@.subrange(0, i + 1) =~= chars@.subrange(0, i as int).push(chars@[i as int]));
        assert(prefix@.subrange(0, i + 1) =~= prefix@.subrange(0, i as int).push(prefix@[i as int]));
        i = i + 1;
    }
    assert(prefix@.subrange(0, 5) =~= prefix@);
    true
}

/// The number of times `k` occurs in `names`.
pub open spec fn occurrences(names: Seq<Seq<char>>, k: Seq<char>) -> nat
    decreases names.len(),
{
    if names.len() == 0 {
        0
    } else {
        occurrences(names.drop_last(), k) + if names.last() == k {
            1nat
        } else {
            0nat
        }
    }
}

/// The reference counts after pinning one file.
pub open spec fn pin_one(m: Map<Seq<char>, nat>, k: Seq<char>) -> Map<Seq<char>, nat> {
    if m.contains_key(k) {
        m.insert(k, m[k] + 1)
    } else {
        m.insert(k, 1)
    }
}

/// The reference counts after pinning each of `names` in turn.
pub open spec fn pinned_after(m: Map<Seq<char>, nat>, names: Seq<Seq<char>>) -> Map<Seq<char>, nat>
    decreases names.len(),
{
    if names.len() == 0 {
        m
    } else {
        pin_one(pinned_after(m, names.drop_last()), names.last())
    }
}

/// The reference counts after releasing one file: its count goes down by
/// one, and the file leaves the table when the count reaches zero.
pub open spec fn unpin_one(m: Map<Seq<char>, nat>, k: Seq<char>) -> Map<Seq<char>, nat> {
    if m.contains_key(k) {
        if m[k] <= 1 {
            m.remove(k)
        } else {
            m.insert(k, (m[k] - 1) as nat)
        }
    } else {
        m
    }
}

/// The reference counts after releasing each of `names` in turn.
pub open spec fn unpinned_after(m: Map<Seq<char>, nat>, names: Seq<Seq<char>>) -> Map<Seq<char>, nat>
    decreases names.len(),
{
    if names.len() == 0 {
        m
    } else {
        unpin_one(unpinned_after(m, names.drop_last()), names.last())
    }
}

/// Every file in the table is pinned at least once.
pub open spec fn counts_positive(m: Map<Seq<char>, nat>) -> bool {
    forall|k: Seq<char>| #[trigger] m.contains_key(k) ==> m[k] >= 1
}

/// Pinning adds to each file's count the number of times it is named.
pub proof fn lemma_pinned_after(m: Map<Seq<char>, nat>, names: Seq<Seq<char>>, k: Seq<char>)
    ensures
        pinned_after(m, names).contains_key(k) <==> (m.contains_key(k) || occurrences(names, k)
            > 0),
        pinned_after(m, names).contains_key(k) ==> pinned_after(m, names)[k] == (if m.contains_key(
            k,
        ) {
            m[k]
        } else {
            0
        }) + occurrences(names, k),
    decreases names.len(),
{
    if names.len() > 0 {
        lemma_pinned_after(m, names.drop_last(), k);
    }
}

/// Releasing files named once each takes one off each of their counts.
pub proof fn lemma_unpinned_after(m: Map<Seq<char>, nat>, names: Seq<Seq<char>>, k: Seq<char>)
    requires
        names.no_duplicates(),
    ensures
        unpinned_after(m, names).contains_key(k) <==> (m.contains_key(k) && !(names.contains(k)
            && m[k] <= 1)),
        unpinned_after(m, names).contains_key(k) ==> unpinned_after(m, names)[k] == if names.contains(
            k,
        ) {
            (m[k] - 1) as nat
        } else {
            m[k]
        },
    decreases names.len(),
{
    if names.len() > 0 {
        let init = names.drop_last();
        assert(init.no_duplicates());
        lemma_unpinned_after(m, init, k);
        if names.last() == k {
            assert(!init.contains(k));
        } else {
            assert(names.contains(k) <==> init.contains(k)) by {
                if names.contains(k) {
                    let i = choose|i: int| 0 <= i < names.len() && names[i] == k;
                    assert(init[i] == k);
                }
                if init.contains(k) {
                    let i = choose|i: int| 0 <= i < init.len() && init[i] == k;
                    assert(names[i] == k);
                }
            }
        }
        if names.last() == k {
            assert(names.contains(k)) by {
                assert(names[names.len() - 1] == k);
            }
        }
    }
}

/// Names that occur once are counted once.
proof fn lemma_occurrences_distinct(names: Seq<Seq<char>>, k: Seq<char>)
    requires
        names.no_duplicates(),
    ensures
        occurrences(names, k) == if names.contains(k) {
            1nat
        } else {
            0nat
        },
    decreases names.len(),
{
    if names.len() > 0 {
        let init = names.drop_last();
        assert(init.no_duplicates());
        lemma_occurrences_distinct(init, k);
        if names.last() == k {
            assert(!init.contains(k));
            assert(names[names.len() - 1] == k);
        } else {
            if names.contains(k) {
                let i = choose|i: int| 0 <= i < names.len() && names[i] == k;
                assert(init[i] == k);
            }
            if init.contains(k) {
                let i = choose|i: int| 0 <= i < init.len() && init[i] == k;
                assert(names[i] == k);
            }
        }
    }
}

/// Pinning a set of files and then releasing the same files (in any order)
/// leaves the reference counts as they were.
pub proof fn lemma_pin_then_unpin(m: Map<Seq<char>, nat>, names: Seq<Seq<char>>, released: Seq<Seq<char>>)
    requires
        names.no_duplicates(),
        released.no_duplicates(),
        forall|k: Seq<char>| #[trigger] released.contains(k) <==> names.contains(k),
        counts_positive(m),
    ensures
        unpinned_after(pinned_after(m, names), released) == m,
{
    let p = pinned_after(m, names);
    let u = unpinned_after(p, released);
    assert forall|k: Seq<char>| #[trigger] u.contains_key(k) == m.contains_key(k) && (u.contains_key(
        k,
    ) ==> u[k] == m[k]) by {
        lemma_pinned_after(m, names, k);
        lemma_unpinned_after(p, released, k);
        lemma_occurrences_distinct(names, k);
        assert(released.contains(k) <==> names.contains(k));
    }
    assert(u =~= m);
}

/// Pinning and releasing keep every count in the table at least one.
pub proof fn lemma_counts_stay_positive(m: Map<Seq<char>, nat>, names: Seq<Seq<char>>)
    requires
        counts_positive(m),
    ensures
        counts_positive(pinned_after(m, names)),
        counts_positive(unpinned_after(m, names)),
    decreases names.len(),
{
    if names.len() > 0 {
        lemma_counts_stay_positive(m, names.drop_last());
    }
}

/// The texts of a list of names.
pub open spec fn names_of(v: Seq<String>) -> Seq<Seq<char>> {
    v.map_values(|s: String| s@)
}

/// The names of a table's entries are distinct and their counts positive.
pub open spec fn table_well_formed(entries: Seq<(String, u32)>) -> bool {
    &&& forall|i: int, j: int|
        0 <= i < j < entries.len() ==> #[trigger] entries[i].0@ != #[trigger] entries[j].0@
    &&& forall|i: int| 0 <= i < entries.len() ==> #[trigger] entries[i].1 >= 1
}

/// The reference counts a table's entries hold.
pub open spec fn table_view(entries: Seq<(String, u32)>) -> Map<Seq<char>, nat> {
    Map::new(
        |k: Seq<char>| exists|i: int| 0 <= i < entries.len() && entries[i].0@ == k,
        |k: Seq<char>| entries[choose|i: int| 0 <= i < entries.len() && entries[i].0@ == k].1 as nat,
    )
}

/// In a well-formed table, each entry's count is the count of its name.
proof fn lemma_table_view(entries: Seq<(String, u32)>)
    requires
        table_well_formed(entries),
    ensures
        forall|i: int|
            0 <= i < entries.len() ==> #[trigger] table_view(entries).contains_key(entries[i].0@)
                && table_view(entries)[entries[i].0@] == entries[i].1 as nat,
        forall|k: Seq<char>| #[trigger]
            table_view(entries).contains_key(k) ==> exists|i: int|
                0 <= i < entries.len() && entries[i].0@ == k,
{
    assert forall|i: int| 0 <= i < entries.len() implies #[trigger] table_view(
        entries,
    ).contains_key(entries[i].0@) && table_view(entries)[entries[i].0@] == entries[i].1 as nat by {
        let k = entries[i].0@;
        assert(exists|j: int| 0 <= j < entries.len() && entries[j].0@ == k);
        let j = choose|j: int| 0 <= j < entries.len() && entries[j].0@ == k;
        if j < i {
            assert(entries[j].0@ != entries[i].0@);
        } else if i < j {
            assert(entries[i].0@ != entries[j].0@);
        }
    }
}

/// The reference counts of the files pinned by operations in progress.
pub struct PinTable {
    entries: Vec<(String, u32)>,
}

impl View for PinTable {
    type V = Map<Seq<char>, nat>;

    closed spec fn view(&self) -> Map<Seq<char>, nat> {
        table_view(self.entries@)
    }
}

impl PinTable {
    /// Names are distinct and counts are positive.
    #[verifier::type_invariant]
    spec fn well_formed(self) -> bool {
        table_well_formed(self.entries@)
    }

    /// An empty table.
    pub fn new() -> (r: Self)
        ensures
            r@ == Map::<Seq<char>, nat>::empty(),
    {
        let r = PinTable { entries: Vec::new() };
        assert(r@ =~= Map::<Seq<char>, nat>::empty());
        r
    }

    fn find(&self, name: &str) -> (r: Option<usize>)
        ensures
            r matches Some(i) ==> i < self.entries@.len() && self.entries@[i as int].0@ == name@,
            r is None ==> forall|i: int|
                0 <= i < self.entries@.len() ==> #[trigger] self.entries@[i].0@ != name@,
    {
        let target = chars_of(name);
        let mut i: usize = 0;
        while i < self.entries.len()
            invariant
                i <= self.entries@.len(),
                target@ == name@,
                forall|j: int| 0 <= j < i ==> #[trigger] self.entries@[j].0@ != name@,
            decreases self.entries@.len() - i,
        {
            let here = chars_of(self.entries[i].0.as_str());
            if crate::text::chars_equal(&here, &target) {
                return Some(i);
            }
            i = i + 1;
        }
        None
    }

    /// The number of operations that have `name` pinned (0 when none has).
    pub fn count(&self, name: &str) -> (r: u32)
        ensures
            self@.contains_key(name@) ==> r == self@[name@],
            !self@.contains_key(name@) ==> r == 0,
    {
        proof {
            use_type_invariant(self);
            lemma_table_view(self.entries@);
        }
        match self.find(name) {
            Some(i) => self.entries[i].1,
            None => 0,
        }
    }

    /// Whether `name` is pinned.
    pub fn is_pinned(&self, name: &str) -> (r: bool)
        ensures
            r == self@.contains_key(name@),
    {
        proof {
            use_type_invariant(self);
            lemma_table_view(self.entries@);
        }
        self.find(name).is_some()
    }

    fn pin_name(&mut self, name: &String)
        requires
            old(self)@.contains_key(name@) ==> old(self)@[name@] < u32::MAX,
        ensures
            final(self)@ == pin_one(old(self)@, name@),
    {
        proof {
            use_type_invariant(&*self);
            lemma_table_view(self.entries@);
        }
        let ghost old_entries = self.entries@;
        let found = self.find(name.as_str());
        let mut entries: Vec<(String, u32)> = Vec::new();
        std::mem::swap(&mut entries, &mut self.entries);
        match found {
            Some(i) => {
                let (n, c) = entries.remove(i);
                entries.insert(i, (n, c + 1));
                proof {
                    assert(entries@ =~= old_entries.update(i as int, (n, (c + 1) as u32)));
                }
            },
            None => {
                entries.push((name.clone(), 1));
            },
        }
        let ghost new_entries = entries@;
        proof {
            assert(table_well_formed(new_entries)) by {
                assert forall|a: int, b: int| 0 <= a < b < new_entries.len() implies #[trigger] new_entries[a].0@
                    != #[trigger] new_entries[b].0@ by {
                    if b < old_entries.len() {
                        assert(old_entries[a].0@ != old_entries[b].0@);
                    }
                }
            }
            lemma_table_view(new_entries);
            let expected = pin_one(table_view(old_entries), name@);
            assert forall|k: Seq<char>| #[trigger] table_view(new_entries).contains_key(k)
                == expected.contains_key(k) && (table_view(new_entries).contains_key(k)
                ==> table_view(new_entries)[k] == expected[k]) by {
                if table_view(new_entries).contains_key(k) {
                    let j = choose|j: int| 0 <= j < new_entries.len() && new_entries[j].0@ == k;
                    if j < old_entries.len() {
                        assert(old_entries[j].0@ == k);
                    }
                }
                if table_view(old_entries).contains_key(k) {
                    let j = choose|j: int| 0 <= j < old_entries.len() && old_entries[j].0@ == k;
                    assert(new_entries[j].0@ == k);
                }
                if k == name@ {
                    match found {
                        Some(i) => {
                            assert(new_entries[i as int].0@ == k);
                        },
                        None => {
                            assert(new_entries[old_entries.len() as int].0@ == k);
                        },
                    }
                }
            }
            assert(table_view(new_entries) =~= expected);
        }
        self.entries = entries;
    }

    /// Pins each of `names` (a name given twice is pinned twice), and returns
    /// the distinct names pinned, for the release that follows.
    pub fn pin_files(&mut self, names: &Vec<String>) -> (r: Vec<String>)
        requires
            forall|k: Seq<char>|
                #![trigger old(self)@.contains_key(k)]
                (if old(self)@.contains_key(k) {
                    old(self)@[k]
                } else {
                    0
                }) + occurrences(names_of(names@), k) <= u32::MAX,
        ensures
            final(self)@ == pinned_after(old(self)@, names_of(names@)),
            names_of(r@).no_duplicates(),
            forall|k: Seq<char>| #[trigger]
                names_of(r@).contains(k) <==> names_of(names@).contains(k),
            counts_positive(final(self)@),
    {
        let ghost start = self@;
        let ghost all = names_of(names@);
        let mut distinct: Vec<String> = Vec::new();
        let mut t: usize = 0;
        while t < names.len()
            invariant
                t <= names@.len(),
                all == names_of(names@),
                self@ == pinned_after(start, all.take(t as int)),
                forall|k: Seq<char>|
                    #![trigger start.contains_key(k)]
                    (if start.contains_key(k) {
                        start[k]
                    } else {
                        0
                    }) + occurrences(all, k) <= u32::MAX,
                names_of(distinct@).no_duplicates(),
                forall|k: Seq<char>| #[trigger]
                    names_of(distinct@).contains(k) <==> all.take(t as int).contains(k),
            decreases names@.len() - t,
        {
            let name = &names[t];
            proof {
                lemma_pinned_after(start, all.take(t as int), name@);
                lemma_occurrences_prefix(all, t as int + 1, name@);
                assert(all.take(t + 1).drop_last() =~= all.take(t as int));
                assert(all.take(t + 1).last() == name@);
            }
            self.pin_name(name);
            let ghost before_push = names_of(distinct@);
            let already = contains_name(&distinct, name.as_str());
            if !already {
                distinct.push(name.clone());
            }
            proof {
                let now = names_of(distinct@);
                assert(all.take(t + 1) =~= all.take(t as int).push(name@));
                if !already {
                    assert(now =~= before_push.push(name@));
                } else {
                    assert(now =~= before_push);
                }
                let pre = all.take(t + 1);
                let old_pre = all.take(t as int);
                assert forall|k: Seq<char>| now.contains(k) <==> pre.contains(k) by {
                    if pre.contains(k) {
                        let i = choose|i: int| 0 <= i < pre.len() && pre[i] == k;
                        if i < t {
                            assert(old_pre[i] == k);
                            assert(old_pre.contains(k));
                            assert(before_push.contains(k));
                            let j = choose|j: int| 0 <= j < before_push.len() && before_push[j] == k;
                            assert(now[j] == k);
                        }
                        if !already && i == t {
                            assert(now[before_push.len() as int] == k);
                        }
                        if already && i == t {
                            assert(k == name@);
                            assert(before_push.contains(name@));
                            let j = choose|j: int| 0 <= j < before_push.len() && before_push[j] == k;
                            assert(now[j] == k);
                        }
                    }
                    if now.contains(k) {
                        let i = choose|i: int| 0 <= i < now.len() && now[i] == k;
                        if i < before_push.len() {
                            assert(before_push[i] == k);
                            assert(before_push.contains(k));
                            assert(old_pre.contains(k));
                            let j = choose|j: int| 0 <= j < old_pre.len() && old_pre[j] == k;
                            assert(pre[j] == k);
                        } else {
                            assert(pre[t as int] == k);
                        }
                    }
                }
            }
            t = t + 1;
        }
        proof {
            assert(all.take(names@.len() as int) =~= all);
        }
        self.prove_positive();
        distinct
    }

    /// Releases each of `names` once: a count goes down by one, and a file
    /// whose count reaches zero is no longer pinned.
    pub fn unpin_files(&mut self, names: &Vec<String>)
        ensures
            final(self)@ == unpinned_after(old(self)@, names_of(names@)),
            counts_positive(final(self)@),
    {
        let ghost start = self@;
        let ghost all = names_of(names@);
        let mut t: usize = 0;
        while t < names.len()
            invariant
                t <= names@.len(),
                all == names_of(names@),
                self@ == unpinned_after(start, all.take(t as int)),
            decreases names@.len() - t,
        {
            proof {
                assert(all.take(t + 1).drop_last() =~= all.take(t as int));
                assert(all.take(t + 1).last() == names@[t as int]@);
            }
            self.unpin_name(&names[t]);
            t = t + 1;
        }
        proof {
            assert(all.take(names@.len() as int) =~= all);
        }
        self.prove_positive();
    }

    fn prove_positive(&self)
        ensures
            counts_positive(self@),
    {
        proof {
            use_type_invariant(self);
            lemma_table_view(self.entries@);
            assert forall|k: Seq<char>| #[trigger] self@.contains_key(k) implies self@[k] >= 1 by {
                let i = choose|i: int| 0 <= i < self.entries@.len() && self.entries@[i].0@ == k;
            }
        }
    }

    fn unpin_name(&mut self, name: &String)
        ensures
            final(self)@ == unpin_one(old(self)@, name@),
    {
        proof {
            use_type_invariant(&*self);
            lemma_table_view(self.entries@);
        }
        let ghost old_entries = self.entries@;
        let found = self.find(name.as_str());
        match found {
            None => {
                proof {
                    assert(!table_view(old_entries).contains_key(name@)) by {
                        if table_view(old_entries).contains_key(name@) {
                            let j = choose|j: int| 0 <= j < old_entries.len() && old_entries[j].0@ == name@;
                        }
                    }
                }
            },
            Some(i) => {
                let mut entries: Vec<(String, u32)> = Vec::new();
        std::mem::swap(&mut entries, &mut self.entries);
                let (n, c) = entries.remove(i);
                if c > 1 {
                    entries.insert(i, (n, c - 1));
                    proof {
                        assert(entries@ =~= old_entries.update(i as int, (n, (c - 1) as u32)));
                    }
                } else {
                    proof {
                        assert(entries@ =~= old_entries.remove(i as int));
                    }
                }
                let ghost new_entries = entries@;
                proof {
                    assert(table_well_formed(new_entries)) by {
                        assert forall|a: int, b: int| 0 <= a < b < new_entries.len() implies #[trigger] new_entries[a].0@
                            != #[trigger] new_entries[b].0@ by {
                            if c > 1 {
                                assert(old_entries[a].0@ != old_entries[b].0@);
                            } else {
                                let oa = if a < i { a } else { a + 1 };
                                let ob = if b < i { b } else { b + 1 };
                                assert(old_entries[oa].0@ != old_entries[ob].0@);
                            }
                        }
                        assert forall|a: int| 0 <= a < new_entries.len() implies #[trigger] new_entries[a].1 >= 1 by {
                            if c <= 1 {
                                let oa = if a < i { a } else { a + 1 };
                                assert(new_entries[a] == old_entries[oa]);
                            }
                        }
                    }
                    lemma_table_view(new_entries);
                    let expected = unpin_one(table_view(old_entries), name@);
                    assert forall|k: Seq<char>| #[trigger] table_view(new_entries).contains_key(k)
                        == expected.contains_key(k) && (table_view(new_entries).contains_key(k)
                        ==> table_view(new_entries)[k] == expected[k]) by {
                        if table_view(new_entries).contains_key(k) {
                            let j = choose|j: int| 0 <= j < new_entries.len() && new_entries[j].0@ == k;
                            if c > 1 {
                                assert(old_entries[j].0@ == k);
                            } else {
                                let oj = if j < i { j } else { j + 1 };
                                assert(old_entries[oj].0@ == k);
                                if oj < i {
                                    assert(old_entries[oj].0@ != old_entries[i as int].0@);
                                } else {
                                    assert(old_entries[i as int].0@ != old_entries[oj].0@);
                                }
                            }
                        }
                        if table_view(old_entries).contains_key(k) {
                            let j = choose|j: int| 0 <= j < old_entries.len() && old_entries[j].0@ == k;
                            if c > 1 {
                                assert(new_entries[j].0@ == k);
                            } else if j < i {
                                assert(new_entries[j].0@ == k);
                            } else if j > i {
                                assert(new_entries[j - 1].0@ == k);
                            }
                        }
                    }
                    assert(table_view(new_entries) =~= expected);
                }
                self.entries = entries;
            },
        }
    }
}

/// The count of `k` in a prefix is at most its count in the whole.
proof fn lemma_occurrences_prefix(all: Seq<Seq<char>>, t: int, k: Seq<char>)
    requires
        0 <= t <= all.len(),
    ensures
        occurrences(all.take(t), k) <= occurrences(all, k),
    decreases all.len() - t,
{
    if t < all.len() {
        lemma_occurrences_prefix(all, t + 1, k);
        assert(all.take(t + 1).drop_last() =~= all.take(t));
    } else {
        assert(all.take(t) =~= all);
    }
}

fn contains_name(names: &Vec<String>, name: &str) -> (r: bool)
    ensures
        r == names_of(names@).contains(name@),
{
    let target = chars_of(name);
    let mut i: usize = 0;
    while i < names.len()
        invariant
            i <= names@.len(),
            target@ == name@,
            forall|j: int| 0 <= j < i ==> #[trigger] names@[j]@ != name@,
        decreases names@.len() - i,
    {
        let here = chars_of(names[i].as_str());
        if crate::text::chars_equal(&here, &target) {
            proof {
                assert(names_of(names@)[i as int] == name@);
            }
            return true;
        }
        i = i + 1;
    }
    proof {
        let vs = names_of(names@);
        if vs.contains(name@) {
            let j = choose|j: int| 0 <= j < vs.len() && vs[j] == name@;
            assert(names@[j]@ == name@);
        }
    }
    false
}

/// The files a download left behind when the store last stopped: the names
/// with the temporary prefix, in order. They are removed when the store is
/// created.
pub fn orphaned_temp_files(names: &Vec<String>) -> (r: Vec<String>)
    ensures
        names_of(r@) == names_of(names@).filter(|n: Seq<char>| is_temp_name(n)),
{
    let mut out: Vec<String> = Vec::new();
    for i in 0..names.len()
        invariant
            names_of(out@) == names_of(names@).take(i as int).filter(|n: Seq<char>| is_temp_name(n)),
    {
        proof {
            assert(names_of(names@).take(i + 1) =~= names_of(names@).take(i as int).push(names@[i as int]@));
            names_of(names@).take(i as int).lemma_filter_push(names@[i as int]@, |n: Seq<char>| is_temp_name(n));
        }
        if is_temp_file_name(names[i].as_str()) {
            let ghost before = out@;
            out.push(crate::firecracker::string_of(names[i].as_str()));
            proof {
                assert(names_of(out@) =~= names_of(before).push(names@[i as int]@));
            }
        }
    }
    proof {
        assert(names_of(names@).take(names@.len() as int) =~= names_of(names@));
    }
    out
}

/// A file of the cache directory, as a scan of the directory sees it.
#[derive(Debug, Clone)]
pub struct CacheEntry {
    /// The file name.
    pub name: String,
    /// Whether the entry is a regular file.
    pub is_file: bool,
    /// The size, in bytes.
    pub size_bytes: u64,
    /// The last access time, in seconds since the epoch.
    pub atime_secs: u64,
}

/// A size in bytes, rounded up to whole MiB.
pub open spec fn mib_ceil(bytes: nat) -> nat {
    (bytes + 1048575) / 1048576
}

/// Converts bytes to MiB, rounding up.
pub fn bytes_to_mib_ceil(bytes: u64) -> (r: u64)
    ensures
        r == mib_ceil(bytes as nat),
{
    let whole = bytes / 1048576;
    if bytes % 1048576 == 0 {
        whole
    } else {
        whole + 1
    }
}

/// The MiB a file counts for in the cache: its size rounded up to whole MiB,
/// as a `u32` (truncating).
pub open spec fn entry_mib(e: CacheEntry) -> nat {
    if e.is_file {
        (mib_ceil(e.size_bytes as nat) as u32) as nat
    } else {
        0
    }
}

/// The space the cache takes, in MiB: the sum over its files.
pub open spec fn cache_used(entries: Seq<CacheEntry>) -> nat
    decreases entries.len(),
{
    if entries.len() == 0 {
        0
    } else {
        cache_used(entries.drop_last()) + entry_mib(entries.last())
    }
}

proof fn lemma_cache_used_prefix(entries: Seq<CacheEntry>, i: int)
    requires
        0 <= i <= entries.len(),
    ensures
        cache_used(entries.take(i)) <= cache_used(entries),
    decreases entries.len() - i,
{
    if i < entries.len() {
        lemma_cache_used_prefix(entries, i + 1);
        assert(entries.take(i + 1).drop_last() =~= entries.take(i));
    } else {
        assert(entries.take(i) =~= entries);
    }
}

/// The space the cache takes, in MiB (files only; other entries count for
/// nothing).
pub fn cache_utilization_mib(entries: &Vec<CacheEntry>) -> (r: u32)
    requires
        cache_used(entries@) <= u32::MAX,
    ensures
        r == cache_used(entries@),
{
    let mut total: u32 = 0;
    let mut i: usize = 0;
    while i < entries.len()
        invariant
            i <= entries@.len(),
            total == cache_used(entries@.take(i as int)),
            cache_used(entries@) <= u32::MAX,
        decreases entries@.len() - i,
    {
        proof {
            assert(entries@.take(i + 1).drop_last() =~= entries@.take(i as int));
            lemma_cache_used_prefix(entries@, i + 1);
        }
        if entries[i].is_file {
            let mib = bytes_to_mib_ceil(entries[i].size_bytes) as u32;
            total = total + mib;
        }
        i = i + 1;
    }
    proof {
        assert(entries@.take(i as int) =~= entries@);
    }
    total
}

/// The space left in the cache: its size minus the space taken, or 0 when
/// the files take more.
pub open spec fn cache_available(cache_size_mib: u32, used: nat) -> nat {
    if used <= cache_size_mib {
        (cache_size_mib - used) as nat
    } else {
        0
    }
}

/// The space left in the cache, in MiB.
pub fn cache_available_mib(cache_size_mib: u32, entries: &Vec<CacheEntry>) -> (r: u32)
    requires
        cache_used(entries@) <= u32::MAX,
    ensures
        r == cache_available(cache_size_mib, cache_used(entries@)),
{
    cache_size_mib.saturating_sub(cache_utilization_mib(entries))
}

/// Whether a file may be evicted: a regular file that is neither an
/// in-progress download nor pinned by an operation in progress.
pub open spec fn evictable(e: CacheEntry, pinned: Map<Seq<char>, nat>) -> bool {
    e.is_file && !is_temp_name(e.name@) && !pinned.contains_key(e.name@)
}

/// `i` is the file to evict: the evictable file with the oldest access time,
/// the first one listed among equally old ones.
pub open spec fn is_eviction_choice(entries: Seq<CacheEntry>, pinned: Map<Seq<char>, nat>, i: int) -> bool {
    &&& 0 <= i < entries.len()
    &&& evictable(entries[i], pinned)
    &&& forall|j: int|
        0 <= j < entries.len() && evictable(#[trigger] entries[j], pinned) ==> entries[i].atime_secs
            <= entries[j].atime_secs
    &&& forall|j: int|
        0 <= j < i && evictable(#[trigger] entries[j], pinned) ==> entries[i].atime_secs
            < entries[j].atime_secs
}

/// The least recently accessed file that may be evicted, if there is one.
pub fn least_recently_accessed(entries: &Vec<CacheEntry>, pinned: &PinTable) -> (r: Option<usize>)
    ensures
        r matches Some(i) ==> is_eviction_choice(entries@, pinned@, i as int),
        r is None ==> forall|j: int|
            0 <= j < entries@.len() ==> !evictable(#[trigger] entries@[j], pinned@),
{
    let mut best: Option<usize> = None;
    let mut i: usize = 0;
    while i < entries.len()
        invariant
            i <= entries@.len(),
            best matches Some(b) ==> b < i && evictable(entries@[b as int], pinned@) && (forall|j: int|
                0 <= j < i && evictable(#[trigger] entries@[j], pinned@) ==> entries@[b as int].atime_secs
                    <= entries@[j].atime_secs) && (forall|j: int|
                0 <= j < b && evictable(#[trigger] entries@[j], pinned@) ==> entries@[b as int].atime_secs
                    < entries@[j].atime_secs),
            best is None ==> forall|j: int|
                0 <= j < i ==> !evictable(#[trigger] entries@[j], pinned@),
        decreases entries@.len() - i,
    {
        let e = &entries[i];
        if e.is_file && !is_temp_file_name(e.name.as_str()) && !pinned.is_pinned(e.name.as_str()) {
            match best {
                Some(b) => {
                    if e.atime_secs < entries[b].atime_secs {
                        best = Some(i);
                    }
                },
                None => {
                    best = Some(i);
                },
            }
        }
        i = i + 1;
    }
    best
}

/// The error returned when no file can be evicted.
#[derive(Debug)]
pub enum DeleteOldestFileError {
    /// The directory could not be read, or the file not removed.
    Io(std::io::Error),
    /// There are no files left to delete.
    NoFiles,
}

/// The error returned when the cache usage cannot be determined.
#[derive(Debug)]
pub enum GetCacheUtilizationError {
    Io(std::io::Error),
}

/// The error returned when room cannot be made in the cache.
#[derive(Debug)]
pub enum EnsureSpaceError {
    /// More space is asked for than the whole cache holds.
    CacheNotLargeEnough { space_required_mib: u32, cache_size_mib: u32 },
    GetCacheUtilization(GetCacheUtilizationError),
    DeleteOldestFile(DeleteOldestFileError),
}

/// The message of [`EnsureSpaceError::CacheNotLargeEnough`].
pub open spec fn not_large_enough_text(space_required_mib: u32, cache_size_mib: u32) -> Seq<char> {
    "There is not enough space allocated to the S3CommitStore to download the files. Required: "@
        + decimal(space_required_mib as nat) + " MiB, Available: "@ + decimal(
        cache_size_mib as nat,
    ) + " MiB"@
}

/// The message of a cache-size error.
pub fn not_large_enough_message(space_required_mib: u32, cache_size_mib: u32) -> (r: String)
    ensures
        r@ == not_large_enough_text(space_required_mib, cache_size_mib),
{
    let mut out: Vec<char> = Vec::new();
    push_str(
        &mut out,
        "There is not enough space allocated to the S3CommitStore to download the files. Required: ",
    );
    push_decimal(&mut out, space_required_mib as u128);
    push_str(&mut out, " MiB, Available: ");
    push_decimal(&mut out, cache_size_mib as u128);
    push_str(&mut out, " MiB");
    assert(out@ =~= not_large_enough_text(space_required_mib, cache_size_mib));
    string_from_chars(out)
}

/// The message of an I/O error while deleting the oldest file, given the
/// I/O error's own text.
pub open spec fn delete_io_text(io_text: Seq<char>) -> Seq<char> {
    "IO error while deleting oldest file in S3CommitStore cache: "@ + io_text
}

/// The message of an I/O error while measuring the cache, given the I/O
/// error's own text.
pub open spec fn utilization_io_text(io_text: Seq<char>) -> Seq<char> {
    "IO error while determining cache utilization: "@ + io_text
}

fn prefixed(prefix: &str, rest: &str) -> (r: String)
    ensures
        r@ == prefix@ + rest@,
{
    let mut out: Vec<char> = Vec::new();
    push_str(&mut out, prefix);
    push_str(&mut out, rest);
    string_from_chars(out)
}

impl DeleteOldestFileError {
    /// The error's message; for an I/O error, the message ends with that
    /// error's own text.
    pub fn to_string(&self) -> (r: String)
        ensures
            self is NoFiles ==> r@ == "There are no files left to delete"@,
            self is Io ==> exists|io_text: Seq<char>| r@ == delete_io_text(io_text),
    {
        match self {
            DeleteOldestFileError::Io(e) => {
                let text = io_error_text(e);
                let r = prefixed(
                    "IO error while deleting oldest file in S3CommitStore cache: ",
                    text.as_str(),
                );
                assert(r@ == delete_io_text(text@));
                r
            },
            DeleteOldestFileError::NoFiles => crate::firecracker::string_of(
                "There are no files left to delete",
            ),
        }
    }
}

impl GetCacheUtilizationError {
    /// The error's message, which ends with the I/O error's own text.
    pub fn to_string(&self) -> (r: String)
        ensures
            exists|io_text: Seq<char>| r@ == utilization_io_text(io_text),
    {
        match self {
            GetCacheUtilizationError::Io(e) => {
                let text = io_error_text(e);
                let r = prefixed("IO error while determining cache utilization: ", text.as_str());
                assert(r@ == utilization_io_text(text@));
                r
            },
        }
    }
}

impl EnsureSpaceError {
    /// The error's message; where an I/O error is behind it, the message
    /// ends with that error's own text.
    pub fn to_string(&self) -> (r: String)
        ensures
            self matches EnsureSpaceError::CacheNotLargeEnough { space_required_mib, cache_size_mib }
                ==> r@ == not_large_enough_text(*space_required_mib, *cache_size_mib),
            self matches EnsureSpaceError::DeleteOldestFile(DeleteOldestFileError::NoFiles) ==> r@
                == "Error while deleting file in S3CommitStore cache: "@
                + "There are no files left to delete"@,
            self matches EnsureSpaceError::DeleteOldestFile(DeleteOldestFileError::Io(_))
                ==> exists|io_text: Seq<char>|
                r@ == "Error while deleting file in S3CommitStore cache: "@ + delete_io_text(io_text),
            self is GetCacheUtilization ==> exists|io_text: Seq<char>|
                r@ == "Error while calculating S3CommitStore cache utilization: "@
                    + utilization_io_text(io_text),
    {
        match self {
            EnsureSpaceError::CacheNotLargeEnough { space_required_mib, cache_size_mib } => {
                not_large_enough_message(*space_required_mib, *cache_size_mib)
            },
            EnsureSpaceError::GetCacheUtilization(e) => {
                let text = e.to_string();
                let r = prefixed(
                    "Error while calculating S3CommitStore cache utilization: ",
                    text.as_str(),
                );
                let ghost t = choose|io_text: Seq<char>| text@ == utilization_io_text(io_text);
                assert(r@ == "Error while calculating S3CommitStore cache utilization: "@
                    + utilization_io_text(t));
                r
            },
            EnsureSpaceError::DeleteOldestFile(e) => {
                let text = e.to_string();
                let r = prefixed("Error while deleting file in S3CommitStore cache: ", text.as_str());
                proof {
                    if e is Io {
                        let t = choose|io_text: Seq<char>| text@ == delete_io_text(io_text);
                        assert(r@ == "Error while deleting file in S3CommitStore cache: "@
                            + delete_io_text(t));
                    }
                }
                r
            },
        }
    }
}

/// What making room in the cache does next.
#[derive(Debug, Clone, Copy, PartialEq, Eq)]
pub enum EnsureSpaceStep {
    /// There is enough room.
    Done,
    /// Delete the given file of the scan, then scan again.
    Evict(usize),
    /// More space is asked for than the whole cache holds.
    CacheNotLargeEnough,
    /// Room is still short and nothing can be evicted.
    NoFiles,
}

/// Decides the next step of making `space_required_mib` MiB of room in a
/// cache of `cache_size_mib` MiB whose directory holds `entries`: refuse a
/// request larger than the cache; stop once enough is available; otherwise
/// evict the least recently accessed evictable file, or fail when there is
/// none. The host deletes the file, scans the directory again and repeats.
pub fn ensure_space_step(
    cache_size_mib: u32,
    space_required_mib: u32,
    entries: &Vec<CacheEntry>,
    pinned: &PinTable,
) -> (r: EnsureSpaceStep)
    requires
        cache_used(entries@) <= u32::MAX,
    ensures
        space_required_mib > cache_size_mib <==> r == EnsureSpaceStep::CacheNotLargeEnough,
        space_required_mib <= cache_size_mib ==> (r == EnsureSpaceStep::Done <==> cache_available(
            cache_size_mib,
            cache_used(entries@),
        ) >= space_required_mib),
        r matches EnsureSpaceStep::Evict(i) ==> cache_available(cache_size_mib, cache_used(entries@))
            < space_required_mib && is_eviction_choice(entries@, pinned@, i as int),
        r == EnsureSpaceStep::NoFiles ==> space_required_mib <= cache_size_mib && cache_available(
            cache_size_mib,
            cache_used(entries@),
        ) < space_required_mib && forall|j: int|
            0 <= j < entries@.len() ==> !evictable(#[trigger] entries@[j], pinned@),
        space_required_mib <= cache_size_mib && cache_available(cache_size_mib, cache_used(entries@))
            < space_required_mib ==> (r is Evict || r == EnsureSpaceStep::NoFiles),
{
    if space_required_mib > cache_size_mib {
        return EnsureSpaceStep::CacheNotLargeEnough;
    }
    let available = cache_available_mib(cache_size_mib, entries);
    if available >= space_required_mib {
        return EnsureSpaceStep::Done;
    }
    match least_recently_accessed(entries, pinned) {
        Some(i) => EnsureSpaceStep::Evict(i),
        None => EnsureSpaceStep::NoFiles,
    }
}

/// The number of files that may be evicted.
pub open spec fn evictable_count(entries: Seq<CacheEntry>, pinned: Map<Seq<char>, nat>) -> nat
    decreases entries.len(),
{
    if entries.len() == 0 {
        0
    } else {
        evictable_count(entries.drop_last(), pinned) + if evictable(entries.last(), pinned) {
            1nat
        } else {
            0nat
        }
    }
}

proof fn lemma_evictable_count_remove(entries: Seq<CacheEntry>, pinned: Map<Seq<char>, nat>, i: int)
    requires
        0 <= i < entries.len(),
    ensures
        evictable_count(entries, pinned) == evictable_count(entries.remove(i), pinned) + if evictable(
            entries[i],
            pinned,
        ) {
            1nat
        } else {
            0nat
        },
    decreases entries.len(),
{
    if i < entries.len() - 1 {
        let init = entries.drop_last();
        lemma_evictable_count_remove(init, pinned, i);
        assert(entries.remove(i).drop_last() =~= init.remove(i));
        assert(entries.remove(i).last() == entries.last());
    } else {
        assert(entries.remove(i) =~= entries.drop_last());
    }
}

proof fn lemma_cache_used_remove(entries: Seq<CacheEntry>, i: int)
    requires
        0 <= i < entries.len(),
    ensures
        cache_used(entries) == cache_used(entries.remove(i)) + entry_mib(entries[i]),
    decreases entries.len(),
{
    if i < entries.len() - 1 {
        let init = entries.drop_last();
        lemma_cache_used_remove(init, i);
        assert(entries.remove(i).drop_last() =~= init.remove(i));
        assert(entries.remove(i).last() == entries.last());
    } else {
        assert(entries.remove(i) =~= entries.drop_last());
    }
}

/// Each eviction removes one of the files that may be evicted and frees
/// the space that file took, so making room ends after at most as many
/// evictions as there are evictable files, and no eviction touches a pinned
/// file or an in-progress download.
pub proof fn lemma_eviction_progress(entries: Seq<CacheEntry>, pinned: Map<Seq<char>, nat>, i: int)
    requires
        is_eviction_choice(entries, pinned, i),
    ensures
        evictable_count(entries.remove(i), pinned) + 1 == evictable_count(entries, pinned),
        cache_used(entries.remove(i)) + entry_mib(entries[i]) == cache_used(entries),
        !pinned.contains_key(entries[i].name@),
        !is_temp_name(entries[i].name@),
{
    lemma_evictable_count_remove(entries, pinned, i);
    lemma_cache_used_remove(entries, i);
}

/// A file to fetch from object storage: its local name and its key.
#[derive(Debug, Clone, Copy)]
pub struct FileToDownload<'a> {
    pub file_name: &'a str,
    pub s3_key: &'a str,
}

/// The local names of the files to fetch, in order (the names the download
/// pins for its duration).
pub fn download_file_names(files: &Vec<FileToDownload>) -> (r: Vec<String>)
    ensures
        r@.len() == files@.len(),
        forall|i: int| 0 <= i < files@.len() ==> #[trigger] r@[i]@ == files@[i].file_name@,
{
    let mut names: Vec<String> = Vec::new();
    for i in 0..files.len()
        invariant
            names@.len() == i,
            forall|j: int| 0 <= j < i ==> #[trigger] names@[j]@ == files@[j].file_name@,
    {
        names.push(crate::firecracker::string_of(files[i].file_name));
    }
    names
}

/// The name of the temporary file a download writes before renaming it into
/// place: the temporary prefix, the file name, a dot and a fresh UUID.
pub open spec fn temp_download_name_text(file_name: Seq<char>, nonce: u128) -> Seq<char> {
    temp_file_prefix() + file_name + "."@ + crate::vm_id::uuid_text(nonce)
}

/// The temporary name under which `file_name` is downloaded.
pub fn temp_download_name(file_name: &str, nonce: u128) -> (r: String)
    ensures
        r@ == temp_download_name_text(file_name@, nonce),
        is_temp_name(r@),
{
    let mut out: Vec<char> = Vec::new();
    push_str(&mut out, ".tmp.");
    push_str(&mut out, file_name);
    push_str(&mut out, ".");
    let id = crate::vm_id::uuid_to_string(nonce);
    push_str(&mut out, id.as_str());
    proof {
        reveal_strlit(".tmp.");
        assert(out@.subrange(0, 5) =~= temp_file_prefix());
    }
    string_from_chars(out)
}

/// The names of the files being downloaded, each by exactly one task.
pub struct InFlight {
    names: Vec<String>,
}

/// The set of names a list holds.
pub open spec fn name_set(names: Seq<String>) -> Set<Seq<char>> {
    Set::new(|k: Seq<char>| exists|i: int| 0 <= i < names.len() && (#[trigger] names[i])@ == k)
}

impl View for InFlight {
    type V = Set<Seq<char>>;

    closed spec fn view(&self) -> Set<Seq<char>> {
        name_set(self.names@)
    }
}

/// What a caller does about one file of a download.
#[derive(Debug, Clone, Copy, PartialEq, Eq)]
pub enum DownloadRole {
    /// The file is on disk already: nothing to do.
    Cached,
    /// Another task is downloading it: wait, then check the file is there.
    Wait,
    /// This caller downloads it, then releases the name.
    Download,
}

impl InFlight {
    /// No download in progress.
    pub fn new() -> (r: Self)
        ensures
            r@ == Set::<Seq<char>>::empty(),
    {
        let r = InFlight { names: Vec::new() };
        assert(r@ =~= Set::<Seq<char>>::empty());
        r
    }

    fn position(&self, name: &str) -> (r: Option<usize>)
        ensures
            r matches Some(i) ==> i < self.names@.len() && self.names@[i as int]@ == name@,
            r is None ==> !self@.contains(name@),
    {
        let target = chars_of(name);
        let mut i: usize = 0;
        while i < self.names.len()
            invariant
                i <= self.names@.len(),
                target@ == name@,
                forall|j: int| 0 <= j < i ==> (#[trigger] self.names@[j])@ != name@,
            decreases self.names@.len() - i,
        {
            let here = chars_of(self.names[i].as_str());
            if crate::text::chars_equal(&here, &target) {
                return Some(i);
            }
            i = i + 1;
        }
        None
    }

    /// Whether a download of `name` is in progress.
    pub fn contains(&self, name: &str) -> (r: bool)
        ensures
            r == self@.contains(name@),
    {
        match self.position(name) {
            Some(i) => {
                assert(self@.contains(name@)) by {
                    assert(self.names@[i as int]@ == name@);
                }
                true
            },
            None => false,
        }
    }

    /// Decides the caller's part in fetching `file_name`: a file already on
    /// disk is used as it is; one another task is fetching is waited for;
    /// otherwise the caller registers as its only downloader.
    pub fn claim(&mut self, file_name: &str, file_exists: bool) -> (r: DownloadRole)
        ensures
            file_exists ==> r == DownloadRole::Cached && final(self)@ == old(self)@,
            !file_exists && old(self)@.contains(file_name@) ==> r == DownloadRole::Wait
                && final(self)@ == old(self)@,
            !file_exists && !old(self)@.contains(file_name@) ==> r == DownloadRole::Download
                && final(self)@ == old(self)@.insert(file_name@),
    {
        if file_exists {
            return DownloadRole::Cached;
        }
        if self.contains(file_name) {
            return DownloadRole::Wait;
        }
        let ghost before = self.names@;
        let name = crate::firecracker::string_of(file_name);
        self.names.push(name);
        proof {
            assert(name_set(self.names@) =~= name_set(before).insert(file_name@)) by {
                assert(self.names@[before.len() as int]@ == file_name@);
                assert forall|k: Seq<char>| name_set(before).contains(k) implies name_set(
                    self.names@,
                ).contains(k) by {
                    let j = choose|j: int| 0 <= j < before.len() && (#[trigger] before[j])@ == k;
                    assert(self.names@[j] == before[j]);
                }
                assert forall|k: Seq<char>| name_set(self.names@).contains(k) implies name_set(
                    before,
                ).insert(file_name@).contains(k) by {
                    let j = choose|j: int|
                        0 <= j < self.names@.len() && (#[trigger] self.names@[j])@ == k;
                    if j < before.len() {
                        assert(before[j] == self.names@[j]);
                    }
                }
            }
        }
        DownloadRole::Download
    }

    /// The download of `name` is over (whether or not it succeeded): the name
    /// is no longer in flight.
    pub fn release(&mut self, name: &str)
        ensures
            final(self)@ == old(self)@.remove(name@),
    {
        let ghost before = self.names@;
        let mut kept: Vec<String> = Vec::new();
        let mut i: usize = 0;
        while i < self.names.len()
            invariant
                i <= self.names@.len(),
                self.names@ == before,
                name_set(kept@) == name_set(before.subrange(0, i as int)).remove(name@),
            decreases self.names@.len() - i,
        {
            let ghost prefix = before.subrange(0, i as int);
            let ghost next = before.subrange(0, i + 1);
            assert(next =~= prefix.push(before[i as int]));
            let here = chars_of(self.names[i].as_str());
            let target = chars_of(name);
            if !crate::text::chars_equal(&here, &target) {
                let ghost kept_before = kept@;
                kept.push(self.names[i].clone());
                proof {
                    assert(kept@.last() == before[i as int]);
                    assert(name_set(kept@) =~= name_set(kept_before).insert(before[i as int]@)) by {
                        assert forall|k: Seq<char>| name_set(kept_before).contains(k) implies name_set(
                            kept@,
                        ).contains(k) by {
                            let j = choose|j: int|
                                0 <= j < kept_before.len() && (#[trigger] kept_before[j])@ == k;
                            assert(kept@[j] == kept_before[j]);
                        }
                        assert forall|k: Seq<char>| name_set(kept@).contains(k) implies name_set(
                            kept_before,
                        ).insert(before[i as int]@).contains(k) by {
                            let j = choose|j: int| 0 <= j < kept@.len() && (#[trigger] kept@[j])@ == k;
                            if j < kept_before.len() {
                                assert(kept_before[j] == kept@[j]);
                            }
                        }
                        assert(name_set(kept@).contains(before[i as int]@)) by {
                            assert(kept@[kept_before.len() as int] == before[i as int]);
                        }
                    }
                }
            }
            proof {
                assert(name_set(next) =~= name_set(prefix).insert(before[i as int]@)) by {
                    assert forall|k: Seq<char>| name_set(prefix).contains(k) implies name_set(next).contains(
                        k,
                    ) by {
                        let j = choose|j: int| 0 <= j < prefix.len() && (#[trigger] prefix[j])@ == k;
                        assert(next[j] == prefix[j]);
                    }
                    assert forall|k: Seq<char>| name_set(next).contains(k) implies name_set(
                        prefix,
                    ).insert(before[i as int]@).contains(k) by {
                        let j = choose|j: int| 0 <= j < next.len() && (#[trigger] next[j])@ == k;
                        if j < prefix.len() {
                            assert(prefix[j] == next[j]);
                        }
                    }
                    assert(name_set(next).contains(before[i as int]@)) by {
                        assert(next[i as int] == before[i as int]);
                    }
                }
                assert(name_set(kept@) =~= name_set(next).remove(name@));
            }
            i = i + 1;
        }
        assert(before.subrange(0, before.len() as int) =~= before);
        self.names = kept;
    }
}

/// The error of a caller that waited for another task's download of
/// `file_name`, which did not leave the file on disk.
pub open spec fn concurrent_download_failed_text(file_name: Seq<char>) -> Seq<char> {
    "Concurrent download of "@ + file_name
        + " failed: file not present after inflight download completed"@
}

/// The message for a waited-for download that left no file.
pub fn concurrent_download_failed_message(file_name: &str) -> (r: String)
    ensures
        r@ == concurrent_download_failed_text(file_name@),
{
    let mut out: Vec<char> = Vec::new();
    push_str(&mut out, "Concurrent download of ");
    push_str(&mut out, file_name);
    push_str(&mut out, " failed: file not present after inflight download completed");
    string_from_chars(out)
}

} // verus!
