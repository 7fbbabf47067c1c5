//! Pieces of the guest kernel command line: the public key token of an
//! OpenSSH key line, and the `chelsea_*` parameters the guest reads at boot.

use crate::text::{chars_of, decimal, push_decimal, push_str, string_from_chars};
use crate::vm_id::{uuid_text, uuid_to_string};
use vstd::prelude::*;

verus! {

/// Whether a character is white space, as `char::is_whitespace` decides it:
/// the characters with the Unicode `White_Space` property (tab to carriage
/// return, space, next line, no-break space, ogham space mark, the spaces
/// from en quad to hair space, line and paragraph separators, narrow
/// no-break space, medium mathematical space and ideographic space).
pub open spec fn whitespace(c: char) -> bool {
    let u = c as u32;
    ||| 0x9 <= u <= 0xd
    ||| u == 0x20
    ||| u == 0x85
    ||| u == 0xa0
    ||| u == 0x1680
    ||| 0x2000 <= u <= 0x200a
    ||| u == 0x2028
    ||| u == 0x2029
    ||| u == 0x202f
    ||| u == 0x205f
    ||| u == 0x3000
}

/// Whether `c` is white space.
fn is_whitespace(c: char) -> (r: bool)
    ensures
        r == whitespace(c),
{
    let u = c as u32;
    (0x9 <= u && u <= 0xd) || u == 0x20 || u == 0x85 || u == 0xa0 || u == 0x1680 || (0x2000 <= u
        && u <= 0x200a) || u == 0x2028 || u == 0x2029 || u == 0x202f || u == 0x205f || u == 0x3000
}

/// The first position at or after `i` that is not white space (or the end).
pub open spec fn skip_space(s: Seq<char>, i: int) -> int
    decreases s.len() - i,
{
    if i < 0 || i >= s.len() {
        s.len() as int
    } else if whitespace(s[i]) {
        skip_space(s, i + 1)
    } else {
        i
    }
}

/// The first position at or after `i` that is white space (or the end).
pub open spec fn token_end(s: Seq<char>, i: int) -> int
    decreases s.len() - i,
{
    if i < 0 || i >= s.len() {
        s.len() as int
    } else if whitespace(s[i]) {
        i
    } else {
        token_end(s, i + 1)
    }
}

/// The second white-space separated word of `s`, or the empty text when
/// there is none (`s.split_whitespace().nth(1).unwrap_or("")`). For an
/// OpenSSH public key line (`ssh-ed25519 AAAA... comment`) this is the
/// base64 key.
pub open spec fn second_word(s: Seq<char>) -> Seq<char> {
    let start0 = skip_space(s, 0);
    let end0 = token_end(s, start0);
    let start1 = skip_space(s, end0);
    let end1 = token_end(s, start1);
    if start1 < s.len() {
        s.subrange(start1, end1)
    } else {
        Seq::empty()
    }
}

proof fn lemma_skip_space_bounds(s: Seq<char>, i: int)
    requires
        0 <= i <= s.len(),
    ensures
        i <= skip_space(s, i) <= s.len(),
    decreases s.len() - i,
{
    if i < s.len() && whitespace(s[i]) {
        lemma_skip_space_bounds(s, i + 1);
    }
}

proof fn lemma_token_end_bounds(s: Seq<char>, i: int)
    requires
        0 <= i <= s.len(),
    ensures
        i <= token_end(s, i) <= s.len(),
    decreases s.len() - i,
{
    if i < s.len() && !whitespace(s[i]) {
        lemma_token_end_bounds(s, i + 1);
    }
}

fn skip_space_from(s: &Vec<char>, i: usize) -> (r: usize)
    requires
        i <= s@.len(),
    ensures
        r == skip_space(s@, i as int),
{
    let mut j = i;
    while j < s.len() && is_whitespace(s[j])
        invariant
            i <= j <= s@.len(),
            skip_space(s@, i as int) == skip_space(s@, j as int),
        decreases s@.len() - j,
    {
        j = j + 1;
    }
    j
}

fn token_end_from(s: &Vec<char>, i: usize) -> (r: usize)
    requires
        i <= s@.len(),
    ensures
        r == token_end(s@, i as int),
{
    let mut j = i;
    while j < s.len() && !is_whitespace(s[j])
        invariant
            i <= j <= s@.len(),
            token_end(s@, i as int) == token_end(s@, j as int),
        decreases s@.len() - j,
    {
        j = j + 1;
    }
    j
}

/// The second white-space separated word of `s`, or the empty text (for an
/// OpenSSH public key line, the base64 key).
pub fn second_word_of(text: &str) -> (r: String)
    ensures
        r@ == second_word(text@),
{
    let s = chars_of(text);
    let start0 = skip_space_from(&s, 0);
    proof {
        lemma_skip_space_bounds(s@, 0);
    }
    let end0 = token_end_from(&s, start0);
    proof {
        lemma_token_end_bounds(s@, start0 as int);
    }
    let start1 = skip_space_from(&s, end0);
    proof {
        lemma_skip_space_bounds(s@, end0 as int);
    }
    let end1 = token_end_from(&s, start1);
    proof {
        lemma_token_end_bounds(s@, start1 as int);
    }
    let mut out: Vec<char> = Vec::new();
    if start1 < s.len() {
        let mut k = start1;
        while k < end1
            invariant
                start1 <= k <= end1 <= s@.len(),
                out@ == s@.subrange(start1 as int, k as int),
            decreases end1 - k,
        {
            out.push(s[k]);
            k = k + 1;
            assert(out@ =~= s@.subrange(start1 as int, k as int));
        }
    } else {
        assert(out@ =~= Seq::<char>::empty());
    }
    string_from_chars(out)
}

/// The `chelsea_*` boot parameters: the entropy seed, the VM id, the SSH
/// public key and the template of the URL the guest calls when it has
/// booted.
pub open spec fn chelsea_params(entropy: u128, vm_id: u128, ssh_pubkey_b64: Seq<char>, notify_boot_url_template: Seq<char>) -> Seq<char> {
    "chelsea_entropy="@ + decimal(entropy as nat) + " chelsea_vm_id="@ + uuid_text(vm_id)
        + " chelsea_ssh_pubkey="@ + ssh_pubkey_b64 + " chelsea_notify_boot_url_template="@
        + notify_boot_url_template
}

/// Appends the `chelsea_*` boot parameters.
pub fn push_chelsea_params(
    out: &mut Vec<char>,
    entropy: u128,
    vm_id: u128,
    ssh_pubkey_b64: &str,
    notify_boot_url_template: &str,
)
    ensures
        final(out)@ == old(out)@ + chelsea_params(
            entropy,
            vm_id,
            ssh_pubkey_b64@,
            notify_boot_url_template@,
        ),
{
    push_str(out, "chelsea_entropy=");
    push_decimal(out, entropy);
    push_str(out, " chelsea_vm_id=");
    let id_text = uuid_to_string(vm_id);
    push_str(out, id_text.as_str());
    push_str(out, " chelsea_ssh_pubkey=");
    push_str(out, ssh_pubkey_b64);
    push_str(out, " chelsea_notify_boot_url_template=");
    push_str(out, notify_boot_url_template);
    assert(out@ =~= old(out)@ + chelsea_params(
        entropy,
        vm_id,
        ssh_pubkey_b64@,
        notify_boot_url_template@,
    ));
}

} // verus!
