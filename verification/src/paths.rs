//! Filesystem paths held as text, with the Unix rules of `PathBuf`:
//! pushing an absolute path replaces, pushing a relative one appends after a
//! separator.

use crate::text::{chars_of, push_str, string_from_chars};
use std::path::Path;
use vstd::prelude::*;

verus! {

/// A path is absolute when it starts at the root.
pub open spec fn is_absolute_path(p: Seq<char>) -> bool {
    p.len() > 0 && p[0] == '/'
}

/// The path that `PathBuf::push` makes of `base` and `p` on Unix: `p` itself
/// when it is absolute; otherwise `base`, a separator unless `base` is empty
/// or already ends in one, and `p`.
pub open spec fn pushed_path(base: Seq<char>, p: Seq<char>) -> Seq<char> {
    if is_absolute_path(p) {
        p
    } else if base.len() > 0 && base.last() != '/' {
        base + seq!['/'] + p
    } else {
        base + p
    }
}

/// Whether `p` is absolute.
pub fn is_absolute(p: &str) -> (r: bool)
    ensures
        r == is_absolute_path(p@),
{
    let chars = chars_of(p);
    chars.len() > 0 && chars[0] == '/'
}

/// Joins `p` onto `base` as `PathBuf::push` (and `Path::join`) do.
pub fn path_join(base: &str, p: &str) -> (r: String)
    ensures
        r@ == pushed_path(base@, p@),
{
    if is_absolute(p) {
        let mut out: Vec<char> = Vec::new();
        push_str(&mut out, p);
        assert(out@ =~= p@);
        return string_from_chars(out);
    }
    let mut out = chars_of(base);
    let n = out.len();
    if n > 0 && out[n - 1] != '/' {
        out.push('/');
    }
    push_str(&mut out, p);
    string_from_chars(out)
}

/// The final component of a path, as `Path::file_name` gives it.
pub uninterp spec fn file_name_of(p: Seq<char>) -> Option<Seq<char>>;

/// The path left after the root of an absolute path, as
/// `Path::strip_prefix("/")` gives it.
pub uninterp spec fn root_stripped(p: Seq<char>) -> Seq<char>;

/// The final component of `p` (`Path::file_name`, as UTF-8 text).
#[verifier::external_body]
pub(crate) fn path_file_name(p: &str) -> (r: Option<String>)
    ensures
        r is None <==> file_name_of(p@) is None,
        r matches Some(s) ==> file_name_of(p@) == Some(s@),
{
    match Path::new(p).file_name() {
        Some(name) => Some(name.to_string_lossy().to_string()),
        None => None,
    }
}

/// The rest of an absolute path after its root (`Path::strip_prefix("/")`,
/// which succeeds on every absolute path).
#[verifier::external_body]
pub(crate) fn strip_root(p: &str) -> (r: String)
    requires
        is_absolute_path(p@),
    ensures
        r@ == root_stripped(p@),
{
    Path::new(p).strip_prefix("/").unwrap_or(Path::new(p)).to_string_lossy().to_string()
}

} // verus!
