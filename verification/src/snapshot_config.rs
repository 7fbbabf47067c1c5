//! The JSON configuration Cloud Hypervisor stores with a snapshot, and the
//! patch that points a restored VM at its own disk, kernel and vsock
//! socket (the snapshot holds the absolute paths of the VM it was taken
//! from).

use crate::firecracker::string_of;
use vstd::prelude::*;

verus! {

/// A JSON value. A number is held as its text; an object as its members in
/// order, with distinct keys.
#[derive(Debug)]
pub enum JsonValue {
    Null,
    Bool(bool),
    Number(String),
    Str(String),
    Array(Vec<JsonValue>),
    Object(Vec<(String, JsonValue)>),
}

/// A JSON value, with its texts as character sequences.
pub enum JsonView {
    Null,
    Bool(bool),
    Number(Seq<char>),
    Str(Seq<char>),
    Array(Seq<JsonView>),
    Object(Seq<(Seq<char>, JsonView)>),
}

/// The view of a value.
pub open spec fn json_view(v: JsonValue) -> JsonView
    decreases v,
{
    match v {
        JsonValue::Null => JsonView::Null,
        JsonValue::Bool(b) => JsonView::Bool(b),
        JsonValue::Number(n) => JsonView::Number(n@),
        JsonValue::Str(s) => JsonView::Str(s@),
        JsonValue::Array(items) => JsonView::Array(items_view(items@)),
        JsonValue::Object(members) => JsonView::Object(members_view(members@)),
    }
}

/// The views of the items of an array.
pub open spec fn items_view(items: Seq<JsonValue>) -> Seq<JsonView>
    decreases items,
{
    if items.len() == 0 {
        Seq::empty()
    } else {
        items_view(items.drop_last()).push(json_view(items.last()))
    }
}

/// The views of the members of an object.
pub open spec fn members_view(members: Seq<(String, JsonValue)>) -> Seq<(Seq<char>, JsonView)>
    decreases members,
{
    if members.len() == 0 {
        Seq::empty()
    } else {
        members_view(members.drop_last()).push(
            (members.last().0@, json_view(members.last().1)),
        )
    }
}

/// The members with the value of `key` (if present) set to `value`.
pub open spec fn with_member(members: Seq<(Seq<char>, JsonView)>, key: Seq<char>, value: JsonView) -> Seq<(Seq<char>, JsonView)> {
    members.map_values(
        |m: (Seq<char>, JsonView)|
            if m.0 == key {
                (m.0, value)
            } else {
                m
            },
    )
}

/// A value with member `key` set to `value` when it is an object holding
/// that key; otherwise unchanged.
pub open spec fn set_in(v: JsonView, key: Seq<char>, value: JsonView) -> JsonView {
    match v {
        JsonView::Object(members) => JsonView::Object(with_member(members, key, value)),
        other => other,
    }
}

/// The disks with their `path` set to `disk_path` (each disk that is an
/// object with a `path` member).
pub open spec fn patched_disks(disks: Seq<JsonView>, disk_path: Seq<char>) -> Seq<JsonView> {
    disks.map_values(|d: JsonView| set_in(d, "path"@, JsonView::Str(disk_path)))
}

/// The members with `disks[*].path`, `payload.kernel` and `vsock.socket`
/// set to the given paths, where the configuration has them.
pub open spec fn patched_members(
    members: Seq<(Seq<char>, JsonView)>,
    disk_path: Seq<char>,
    kernel_path: Seq<char>,
    vsock_socket_path: Seq<char>,
) -> Seq<(Seq<char>, JsonView)> {
    members.map_values(
        |m: (Seq<char>, JsonView)|
            if m.0 == "disks"@ {
                (
                    m.0,
                    match m.1 {
                        JsonView::Array(ds) => JsonView::Array(patched_disks(ds, disk_path)),
                        other => other,
                    },
                )
            } else if m.0 == "payload"@ {
                (m.0, set_in(m.1, "kernel"@, JsonView::Str(kernel_path)))
            } else if m.0 == "vsock"@ {
                (m.0, set_in(m.1, "socket"@, JsonView::Str(vsock_socket_path)))
            } else {
                m
            },
    )
}

/// The snapshot configuration with its disk paths, kernel path and vsock
/// socket path replaced (a configuration that is not an object is left as
/// it is).
pub open spec fn patched_config(
    config: JsonView,
    disk_path: Seq<char>,
    kernel_path: Seq<char>,
    vsock_socket_path: Seq<char>,
) -> JsonView {
    match config {
        JsonView::Object(members) => JsonView::Object(
            patched_members(members, disk_path, kernel_path, vsock_socket_path),
        ),
        other => other,
    }
}

proof fn lemma_items_view_push(items: Seq<JsonValue>, v: JsonValue)
    ensures
        items_view(items.push(v)) == items_view(items).push(json_view(v)),
        items_view(items.push(v)).len() == items.len() + 1,
{
    assert(items.push(v).drop_last() =~= items);
    lemma_items_view_len(items);
}

proof fn lemma_items_view_len(items: Seq<JsonValue>)
    ensures
        items_view(items).len() == items.len(),
    decreases items.len(),
{
    if items.len() > 0 {
        lemma_items_view_len(items.drop_last());
    }
}

proof fn lemma_members_view_push(members: Seq<(String, JsonValue)>, m: (String, JsonValue))
    ensures
        members_view(members.push(m)) == members_view(members).push((m.0@, json_view(m.1))),
{
    assert(members.push(m).drop_last() =~= members);
}

proof fn lemma_members_view_len(members: Seq<(String, JsonValue)>)
    ensures
        members_view(members).len() == members.len(),
    decreases members.len(),
{
    if members.len() > 0 {
        lemma_members_view_len(members.drop_last());
    }
}

fn text_is(s: &String, t: &str) -> (r: bool)
    ensures
        r == (s@ == t@),
{
    let a = crate::text::chars_of(s.as_str());
    let b = crate::text::chars_of(t);
    crate::text::chars_equal(&a, &b)
}

/// Sets member `key` of `v` to the string `value` when `v` is an object
/// holding that key.
fn set_string_member(v: JsonValue, key: &str, value: &str) -> (r: JsonValue)
    ensures
        json_view(r) == set_in(json_view(v), key@, JsonView::Str(value@)),
{
    match v {
        JsonValue::Object(members) => {
            let ghost old_members = members@;
            let mut members = members;
            let mut out: Vec<(String, JsonValue)> = Vec::new();
            let ghost n = members@.len();
            while members.len() > 0
                invariant
                    n == old_members.len(),
                    members@.len() + out@.len() == n,
                    members@ == old_members.subrange(out@.len() as int, n as int),
                    members_view(out@) == with_member(
                        members_view(old_members.subrange(0, out@.len() as int)),
                        key@,
                        JsonView::Str(value@),
                    ),
                decreases members@.len(),
            {
                let ghost k: int = out@.len() as int;
                let m = members.remove(0);
                proof {
                    assert(m == old_members[k]);
                    assert(members@ =~= old_members.subrange(k + 1, n as int));
                }
                let (name, val) = m;
                let entry = if text_is(&name, key) {
                    (name, JsonValue::Str(string_of(value)))
                } else {
                    (name, val)
                };
                proof {
                    let pre = old_members.subrange(0, k);
                    let post = old_members.subrange(0, k + 1);
                    assert(post =~= pre.push(old_members[k]));
                    lemma_members_view_push(pre, old_members[k]);
                    lemma_members_view_push(out@, entry);
                    lemma_members_view_len(pre);
                    assert(with_member(members_view(post), key@, JsonView::Str(value@)) =~= with_member(
                        members_view(pre),
                        key@,
                        JsonView::Str(value@),
                    ).push((entry.0@, json_view(entry.1))));
                }
                out.push(entry);
            }
            proof {
                assert(old_members.subrange(0, n as int) =~= old_members);
            }
            JsonValue::Object(out)
        },
        other => other,
    }
}

fn patch_disks(items: Vec<JsonValue>, disk_path: &str) -> (r: Vec<JsonValue>)
    ensures
        items_view(r@) == patched_disks(items_view(items@), disk_path@),
{
    let ghost old_items = items@;
    let mut items = items;
    let mut out: Vec<JsonValue> = Vec::new();
    let ghost n = items@.len();
    while items.len() > 0
        invariant
            n == old_items.len(),
            items@.len() + out@.len() == n,
            items@ == old_items.subrange(out@.len() as int, n as int),
            items_view(out@) == patched_disks(
                items_view(old_items.subrange(0, out@.len() as int)),
                disk_path@,
            ),
        decreases items@.len(),
    {
        let ghost k: int = out@.len() as int;
        let d = items.remove(0);
        proof {
            assert(d == old_items[k]);
            assert(items@ =~= old_items.subrange(k + 1, n as int));
        }
        let patched = set_string_member(d, "path", disk_path);
        proof {
            let pre = old_items.subrange(0, k);
            let post = old_items.subrange(0, k + 1);
            assert(post =~= pre.push(old_items[k]));
            lemma_items_view_push(pre, old_items[k]);
            lemma_items_view_push(out@, patched);
            lemma_items_view_len(pre);
            assert(patched_disks(items_view(post), disk_path@) =~= patched_disks(
                items_view(pre),
                disk_path@,
            ).push(json_view(patched)));
        }
        out.push(patched);
    }
    proof {
        assert(old_items.subrange(0, n as int) =~= old_items);
    }
    out
}

/// Points a snapshot's configuration at the restored VM: every disk's
/// `path`, the payload's `kernel` and the vsock device's `socket` are set
/// to the given paths, where the configuration has them; nothing else
/// changes.
pub fn patch_snapshot_config(
    config: JsonValue,
    disk_path: &str,
    kernel_path: &str,
    vsock_socket_path: &str,
) -> (r: JsonValue)
    ensures
        json_view(r) == patched_config(json_view(config), disk_path@, kernel_path@, vsock_socket_path@),
{
    match config {
        JsonValue::Object(members) => {
            let ghost old_members = members@;
            let mut members = members;
            let mut out: Vec<(String, JsonValue)> = Vec::new();
            let ghost n = members@.len();
            while members.len() > 0
                invariant
                    n == old_members.len(),
                    members@.len() + out@.len() == n,
                    members@ == old_members.subrange(out@.len() as int, n as int),
                    members_view(out@) == patched_members(
                        members_view(old_members.subrange(0, out@.len() as int)),
                        disk_path@,
                        kernel_path@,
                        vsock_socket_path@,
                    ),
                decreases members@.len(),
            {
                let ghost k: int = out@.len() as int;
                let m = members.remove(0);
                proof {
                    assert(m == old_members[k]);
                    assert(members@ =~= old_members.subrange(k + 1, n as int));
                }
                let (name, val) = m;
                let entry = if text_is(&name, "disks") {
                    match val {
                        JsonValue::Array(ds) => (name, JsonValue::Array(patch_disks(ds, disk_path))),
                        other => (name, other),
                    }
                } else if text_is(&name, "payload") {
                    (name, set_string_member(val, "kernel", kernel_path))
                } else if text_is(&name, "vsock") {
                    (name, set_string_member(val, "socket", vsock_socket_path))
                } else {
                    (name, val)
                };
                proof {
                    reveal_strlit("disks");
                    reveal_strlit("payload");
                    reveal_strlit("vsock");
                    let pre = old_members.subrange(0, k);
                    let post = old_members.subrange(0, k + 1);
                    assert(post =~= pre.push(old_members[k]));
                    lemma_members_view_push(pre, old_members[k]);
                    lemma_members_view_push(out@, entry);
                    lemma_members_view_len(pre);
                    assert(patched_members(
                        members_view(post),
                        disk_path@,
                        kernel_path@,
                        vsock_socket_path@,
                    ) =~= patched_members(
                        members_view(pre),
                        disk_path@,
                        kernel_path@,
                        vsock_socket_path@,
                    ).push((entry.0@, json_view(entry.1))));
                }
                out.push(entry);
            }
            proof {
                assert(old_members.subrange(0, n as int) =~= old_members);
            }
            JsonValue::Object(out)
        },
        other => other,
    }
}

} // verus!
