//! The outcome of tearing a VM's resources down: every part is attempted,
//! and the failures, if any, are reported together.

use crate::text::{push_str, string_from_chars};
use crate::vm_id::{uuid_text, uuid_to_string};
use vstd::prelude::*;

verus! {

/// The error texts among the results, in order.
pub open spec fn failures(results: Seq<Option<Seq<char>>>) -> Seq<Seq<char>>
    decreases results.len(),
{
    if results.len() == 0 {
        Seq::empty()
    } else {
        let rest = failures(results.drop_last());
        match results.last() {
            Some(t) => rest.push(t),
            None => rest,
        }
    }
}

/// The texts, separated by `sep`.
pub open spec fn joined(texts: Seq<Seq<char>>, sep: Seq<char>) -> Seq<char>
    decreases texts.len(),
{
    if texts.len() == 0 {
        Seq::empty()
    } else if texts.len() == 1 {
        texts[0]
    } else {
        joined(texts.drop_last(), sep) + sep + texts.last()
    }
}

/// The views of optional texts.
pub open spec fn results_view(results: Seq<Option<String>>) -> Seq<Option<Seq<char>>> {
    results.map_values(|o: Option<String>| match o {
        Some(s) => Some(s@),
        None => None,
    })
}

/// Joins the error texts of the failed results with `sep`, in order.
pub fn join_failures(results: &Vec<Option<String>>, sep: &str) -> (r: Option<String>)
    ensures
        failures(results_view(results@)).len() == 0 <==> r is None,
        r matches Some(t) ==> t@ == joined(failures(results_view(results@)), sep@),
{
    let mut out: Vec<char> = Vec::new();
    let mut any: bool = false;
    let mut i: usize = 0;
    while i < results.len()
        invariant
            0 <= i <= results@.len(),
            any <==> failures(results_view(results@).subrange(0, i as int)).len() > 0,
            out@ == joined(failures(results_view(results@).subrange(0, i as int)), sep@),
        decreases results@.len() - i,
    {
        let ghost v = results_view(results@);
        proof {
            assert(v.subrange(0, i + 1).drop_last() =~= v.subrange(0, i as int));
        }
        match &results[i] {
            Some(t) => {
                if any {
                    push_str(&mut out, sep);
                }
                push_str(&mut out, t.as_str());
                proof {
                    let f = failures(v.subrange(0, i + 1));
                    assert(f =~= failures(v.subrange(0, i as int)).push(t@));
                    assert(f.drop_last() =~= failures(v.subrange(0, i as int)));
                    if !any {
                        assert(out@ =~= joined(f, sep@));
                    } else {
                        assert(out@ =~= joined(f, sep@));
                    }
                }
                any = true;
            },
            None => {},
        }
        i = i + 1;
    }
    assert(results_view(results@).subrange(0, results@.len() as int) =~= results_view(results@));
    if !any {
        None
    } else {
        Some(string_from_chars(out))
    }
}

/// Joins texts with `sep` between them.
pub fn join_texts(texts: &Vec<String>, sep: &str) -> (r: String)
    ensures
        r@ == joined(crate::snapshot_cache::names_of(texts@), sep@),
{
    let ghost all = crate::snapshot_cache::names_of(texts@);
    let mut out: Vec<char> = Vec::new();
    let mut i: usize = 0;
    while i < texts.len()
        invariant
            i <= texts@.len(),
            all == crate::snapshot_cache::names_of(texts@),
            out@ == joined(all.take(i as int), sep@),
        decreases texts@.len() - i,
    {
        if i > 0 {
            push_str(&mut out, sep);
        }
        push_str(&mut out, texts[i].as_str());
        proof {
            let next = all.take(i + 1);
            assert(next.drop_last() =~= all.take(i as int));
            assert(next.last() == texts@[i as int]@);
            if i == 0 {
                assert(out@ =~= joined(next, sep@));
            } else {
                assert(out@ =~= joined(next, sep@));
            }
        }
        i = i + 1;
    }
    assert(all.take(texts@.len() as int) =~= all);
    string_from_chars(out)
}

/// What was being done to the VM when its resources were released.
#[derive(Debug, Clone, Copy, PartialEq, Eq)]
pub enum TeardownKind {
    Killing,
    Sleeping,
}

/// The verb of a teardown, as the message gives it.
pub open spec fn teardown_verb(kind: TeardownKind) -> Seq<char> {
    match kind {
        TeardownKind::Killing => "killing"@,
        TeardownKind::Sleeping => "sleeping"@,
    }
}

/// The message reporting the failures of a teardown.
pub open spec fn teardown_error_text(kind: TeardownKind, vm_id: u128, failed: Seq<Seq<char>>) -> Seq<char> {
    "One or more errors while "@ + teardown_verb(kind) + " VM "@ + uuid_text(vm_id) + ": "@
        + joined(failed, "; "@)
}

/// The outcome of releasing a VM's process, network, volume and records:
/// success when every part succeeded, else one error naming all failures
/// in order.
pub fn teardown_outcome(kind: TeardownKind, vm_id: u128, results: Vec<Option<String>>) -> (r: Result<(), String>)
    ensures
        r is Ok <==> failures(results_view(results@)).len() == 0,
        r matches Err(m) ==> m@ == teardown_error_text(kind, vm_id, failures(results_view(results@))),
{
    match join_failures(&results, "; ") {
        None => Ok(()),
        Some(joined_text) => {
            let mut out: Vec<char> = Vec::new();
            push_str(&mut out, "One or more errors while ");
            match kind {
                TeardownKind::Killing => push_str(&mut out, "killing"),
                TeardownKind::Sleeping => push_str(&mut out, "sleeping"),
            }
            push_str(&mut out, " VM ");
            let id = uuid_to_string(vm_id);
            push_str(&mut out, id.as_str());
            push_str(&mut out, ": ");
            push_str(&mut out, joined_text.as_str());
            proof {
                reveal_strlit("; ");
            }
            assert(out@ =~= teardown_error_text(kind, vm_id, failures(results_view(results@))));
            Err(string_from_chars(out))
        },
    }
}

} // verus!
