//! VM identifiers: 128-bit UUIDs, and their canonical text (lowercase
//! hexadecimal in groups of 8-4-4-4-12 digits).

use crate::text::digit_char;
use vstd::prelude::*;

verus! {

/// The lowercase character of a hexadecimal digit.
pub open spec fn hex_digit_char(d: nat) -> char {
    if d < 10 {
        digit_char(d)
    } else if d == 10 {
        'a'
    } else if d == 11 {
        'b'
    } else if d == 12 {
        'c'
    } else if d == 13 {
        'd'
    } else if d == 14 {
        'e'
    } else {
        'f'
    }
}

/// The `i`-th hexadecimal digit of `id`, counting from the most significant.
pub open spec fn nibble(id: u128, i: int) -> u128 {
    (id >> ((124 - 4 * i) as u128)) & 0xfu128
}

/// The position among the 32 digits of the `j`-th character of the text, for
/// a position that is not a hyphen.
pub open spec fn digit_index(j: int) -> int {
    if j < 8 {
        j
    } else if j < 13 {
        j - 1
    } else if j < 18 {
        j - 2
    } else if j < 23 {
        j - 3
    } else {
        j - 4
    }
}

/// The `j`-th character of the canonical text of `id`.
pub open spec fn uuid_char(id: u128, j: int) -> char {
    if j == 8 || j == 13 || j == 18 || j == 23 {
        '-'
    } else {
        hex_digit_char(nibble(id, digit_index(j)) as nat)
    }
}

/// The canonical text of a UUID: 36 characters, hyphens at positions 8, 13,
/// 18 and 23, and the 32 hexadecimal digits of the value, most significant
/// first, in lowercase.
pub open spec fn uuid_text(id: u128) -> Seq<char> {
    Seq::new(36, |j: int| uuid_char(id, j))
}

/// The canonical text of the UUID whose 128-bit value is `id`
/// (`uuid::Uuid::from_u128`, then its `Display`, which writes the lowercase
/// hyphenated form).
#[verifier::external_body]
pub(crate) fn uuid_to_string(id: u128) -> (r: String)
    ensures
        r@ == uuid_text(id),
{
    uuid::Uuid::from_u128(id).to_string()
}

proof fn lemma_hex_digit_char_injective(a: nat, b: nat)
    requires
        a < 16,
        b < 16,
        hex_digit_char(a) == hex_digit_char(b),
    ensures
        a == b,
{
}

proof fn lemma_nibble_bound(id: u128, i: int)
    requires
        0 <= i < 32,
    ensures
        nibble(id, i) < 16,
{
    let s = (124 - 4 * i) as u128;
    assert((id >> s) & 0xfu128 < 16) by (bit_vector);
}

/// A value is determined by its 32 hexadecimal digits.
proof fn lemma_nibbles_determine(a: u128, b: u128)
    requires
        forall|i: int| 0 <= i < 32 ==> nibble(a, i) == nibble(b, i),
    ensures
        a == b,
{
    assert(nibble(a, 0) == nibble(b, 0));
    assert(nibble(a, 1) == nibble(b, 1));
    assert(nibble(a, 2) == nibble(b, 2));
    assert(nibble(a, 3) == nibble(b, 3));
    assert(nibble(a, 4) == nibble(b, 4));
    assert(nibble(a, 5) == nibble(b, 5));
    assert(nibble(a, 6) == nibble(b, 6));
    assert(nibble(a, 7) == nibble(b, 7));
    assert(nibble(a, 8) == nibble(b, 8));
    assert(nibble(a, 9) == nibble(b, 9));
    assert(nibble(a, 10) == nibble(b, 10));
    assert(nibble(a, 11) == nibble(b, 11));
    assert(nibble(a, 12) == nibble(b, 12));
    assert(nibble(a, 13) == nibble(b, 13));
    assert(nibble(a, 14) == nibble(b, 14));
    assert(nibble(a, 15) == nibble(b, 15));
    assert(nibble(a, 16) == nibble(b, 16));
    assert(nibble(a, 17) == nibble(b, 17));
    assert(nibble(a, 18) == nibble(b, 18));
    assert(nibble(a, 19) == nibble(b, 19));
    assert(nibble(a, 20) == nibble(b, 20));
    assert(nibble(a, 21) == nibble(b, 21));
    assert(nibble(a, 22) == nibble(b, 22));
    assert(nibble(a, 23) == nibble(b, 23));
    assert(nibble(a, 24) == nibble(b, 24));
    assert(nibble(a, 25) == nibble(b, 25));
    assert(nibble(a, 26) == nibble(b, 26));
    assert(nibble(a, 27) == nibble(b, 27));
    assert(nibble(a, 28) == nibble(b, 28));
    assert(nibble(a, 29) == nibble(b, 29));
    assert(nibble(a, 30) == nibble(b, 30));
    assert(nibble(a, 31) == nibble(b, 31));
    assert({
        &&& nibble(a, 0) == nibble(b, 0)
        &&& nibble(a, 1) == nibble(b, 1)
        &&& nibble(a, 2) == nibble(b, 2)
        &&& nibble(a, 3) == nibble(b, 3)
        &&& nibble(a, 4) == nibble(b, 4)
        &&& nibble(a, 5) == nibble(b, 5)
        &&& nibble(a, 6) == nibble(b, 6)
        &&& nibble(a, 7) == nibble(b, 7)
        &&& nibble(a, 8) == nibble(b, 8)
        &&& nibble(a, 9) == nibble(b, 9)
        &&& nibble(a, 10) == nibble(b, 10)
        &&& nibble(a, 11) == nibble(b, 11)
        &&& nibble(a, 12) == nibble(b, 12)
        &&& nibble(a, 13) == nibble(b, 13)
        &&& nibble(a, 14) == nibble(b, 14)
        &&& nibble(a, 15) == nibble(b, 15)
        &&& nibble(a, 16) == nibble(b, 16)
        &&& nibble(a, 17) == nibble(b, 17)
        &&& nibble(a, 18) == nibble(b, 18)
        &&& nibble(a, 19) == nibble(b, 19)
        &&& nibble(a, 20) == nibble(b, 20)
        &&& nibble(a, 21) == nibble(b, 21)
        &&& nibble(a, 22) == nibble(b, 22)
        &&& nibble(a, 23) == nibble(b, 23)
        &&& nibble(a, 24) == nibble(b, 24)
        &&& nibble(a, 25) == nibble(b, 25)
        &&& nibble(a, 26) == nibble(b, 26)
        &&& nibble(a, 27) == nibble(b, 27)
        &&& nibble(a, 28) == nibble(b, 28)
        &&& nibble(a, 29) == nibble(b, 29)
        &&& nibble(a, 30) == nibble(b, 30)
        &&& nibble(a, 31) == nibble(b, 31)
    } ==> a == b)
        by (bit_vector);
}

/// Distinct VM ids have distinct texts.
pub proof fn lemma_uuid_text_injective(a: u128, b: u128)
    requires
        uuid_text(a) == uuid_text(b),
    ensures
        a == b,
{
    assert forall|i: int| 0 <= i < 32 implies nibble(a, i) == nibble(b, i) by {
        let j = if i < 8 {
            i
        } else if i < 12 {
            i + 1
        } else if i < 16 {
            i + 2
        } else if i < 20 {
            i + 3
        } else {
            i + 4
        };
        assert(digit_index(j) == i);
        assert(uuid_text(a)[j] == uuid_char(a, j));
        assert(uuid_text(b)[j] == uuid_char(b, j));
        lemma_nibble_bound(a, i);
        lemma_nibble_bound(b, i);
        lemma_hex_digit_char_injective(nibble(a, i) as nat, nibble(b, i) as nat);
    }
    lemma_nibbles_determine(a, b);
}

/// The text of a VM id holds no `/`, so it names a single path component.
pub proof fn lemma_uuid_text_no_slash(id: u128)
    ensures
        uuid_text(id).len() == 36,
        forall|j: int| 0 <= j < 36 ==> #[trigger] uuid_text(id)[j] != '/',
{
}

} // verus!
