//! Job identifiers: random 128-bit values, written as hyphenated lower-case
//! hexadecimal text.

use uuid::Uuid;
use vstd::prelude::*;

verus! {

/// The character for one hexadecimal digit.
pub open spec fn hex_digit(value: u128) -> char {
    if value < 10 {
        ((48 + value) as u8) as char
    } else {
        ((87 + value) as u8) as char
    }
}

/// The `k`-th hexadecimal digit of `id`, counted from the most significant.
pub open spec fn nibble(id: u128, k: int) -> u128 {
    (id >> ((124 - 4 * k) as u128)) & 0xf
}

/// A hyphen stands at this position of the text.
pub open spec fn is_hyphen_position(i: int) -> bool {
    i == 8 || i == 13 || i == 18 || i == 23
}

/// The number of hyphens before position `i` of the text.
pub open spec fn hyphens_before(i: int) -> int {
    if i < 8 {
        0
    } else if i < 13 {
        1
    } else if i < 18 {
        2
    } else if i < 23 {
        3
    } else {
        4
    }
}

/// The text of an identifier: its 32 hexadecimal digits in lower case, most
/// significant first, in groups of 8, 4, 4, 4 and 12 with hyphens between.
pub open spec fn id_text(id: u128) -> Seq<char> {
    Seq::new(
        36,
        |i: int|
            if is_hyphen_position(i) {
                '-'
            } else {
                hex_digit(nibble(id, i - hyphens_before(i)))
            },
    )
}

/// `id` has the form of a random identifier: its version digit, the
/// thirteenth, is 4, and its variant digit, the seventeenth, is one of 8,
/// 9, a and b. The other thirty digits are free.
pub open spec fn is_version_four(id: u128) -> bool {
    nibble(id, 12) == 4 && 8 <= nibble(id, 16) < 12
}

/// `Uuid::new_v4`, as a number: a random identifier. Which one is not
/// known beforehand, only that version and variant are set as the source
/// of `new_v4` sets them, by one mask and one constant.
#[verifier::external_body]
pub(crate) fn random_id() -> (id: u128)
    ensures
        is_version_four(id),
{
    Uuid::new_v4().as_u128()
}

/// The `Display` form of the `Uuid` with the value `id`.
#[verifier::external_body]
pub(crate) fn hyphenated(id: u128) -> (text: String)
    ensures
        text@ == id_text(id),
{
    Uuid::from_u128(id).to_string()
}

proof fn lemma_nibble_small(id: u128, k: int)
    requires
        0 <= k < 32,
    ensures
        nibble(id, k) < 16,
{
    let shift = (124 - 4 * k) as u128;
    assert(((id >> shift) & 0xf) < 16) by (bit_vector);
}

proof fn lemma_hex_digit_injective(v: u128, w: u128)
    requires
        v < 16,
        w < 16,
        hex_digit(v) == hex_digit(w),
    ensures
        v == w,
{
    assert(hex_digit(v) as u32 == hex_digit(w) as u32);
}

/// No character of the text is a separator of paths.
pub proof fn lemma_id_text_plain(id: u128)
    ensures
        id_text(id).len() == 36,
        forall|i: int| 0 <= i < 36 ==> id_text(id)[i] != '/',
{
    assert forall|i: int| 0 <= i < 36 implies id_text(id)[i] != '/' by {
        if !is_hyphen_position(i) {
            let v = nibble(id, i - hyphens_before(i));
            lemma_nibble_small(id, i - hyphens_before(i));
            assert(hex_digit(v) as u32 != '/' as u32);
        }
    }
}

/// The text of a random identifier shows its version: the first character
/// of the third group is `4`, and the first of the fourth group is one of
/// `8`, `9`, `a` and `b`.
pub proof fn lemma_version_in_text(id: u128)
    requires
        is_version_four(id),
    ensures
        id_text(id)[14] == '4',
        id_text(id)[19] == '8' || id_text(id)[19] == '9' || id_text(id)[19] == 'a' || id_text(
            id,
        )[19] == 'b',
{
    assert(!is_hyphen_position(14) && 14 - hyphens_before(14) == 12);
    assert(!is_hyphen_position(19) && 19 - hyphens_before(19) == 16);
    assert(hex_digit(4) == '4');
    assert(hex_digit(8) == '8' && hex_digit(9) == '9' && hex_digit(10) == 'a' && hex_digit(11)
        == 'b');
}

/// Two identifiers with the same text are the same identifier.
pub proof fn lemma_id_text_injective(a: u128, b: u128)
    requires
        id_text(a) == id_text(b),
    ensures
        a == b,
{
    assert forall|k: int| 0 <= k < 32 implies nibble(a, k) == nibble(b, k) by {
        let i = if k < 8 {
            k
        } else if k < 12 {
            k + 1
        } else if k < 16 {
            k + 2
        } else if k < 20 {
            k + 3
        } else {
            k + 4
        };
        assert(!is_hyphen_position(i) && i - hyphens_before(i) == k);
        assert(id_text(a)[i] == hex_digit(nibble(a, k)));
        assert(id_text(b)[i] == hex_digit(nibble(b, k)));
        lemma_nibble_small(a, k);
        lemma_nibble_small(b, k);
        lemma_hex_digit_injective(nibble(a, k), nibble(b, k));
    }
    assert(nibble(a, 0) == nibble(b, 0));
    assert(nibble(a, 1) == nibble(b, 1));
    assert(nibble(a, 2) == nibble(b, 2));
    assert(nibble(a, 3) == nibble(b, 3));
    assert(nibble(a, 4) == nibble(b, 4));
    assert(nibble(a, 5) == nibble(b, 5));
    assert(nibble(a, 6) == nibble(b, 6));
    assert(nibble(a, 7) == nibble(b, 7));
    assert(nibble(a, 8) == nibble(b, 8));
    assert(nibble(a, 9) == nibble(b, 9));
    assert(nibble(a, 10) == nibble(b, 10));
    assert(nibble(a, 11) == nibble(b, 11));
    assert(nibble(a, 12) == nibble(b, 12));
    assert(nibble(a, 13) == nibble(b, 13));
    assert(nibble(a, 14) == nibble(b, 14));
    assert(nibble(a, 15) == nibble(b, 15));
    assert(nibble(a, 16) == nibble(b, 16));
    assert(nibble(a, 17) == nibble(b, 17));
    assert(nibble(a, 18) == nibble(b, 18));
    assert(nibble(a, 19) == nibble(b, 19));
    assert(nibble(a, 20) == nibble(b, 20));
    assert(nibble(a, 21) == nibble(b, 21));
    assert(nibble(a, 22) == nibble(b, 22));
    assert(nibble(a, 23) == nibble(b, 23));
    assert(nibble(a, 24) == nibble(b, 24));
    assert(nibble(a, 25) == nibble(b, 25));
    assert(nibble(a, 26) == nibble(b, 26));
    assert(nibble(a, 27) == nibble(b, 27));
    assert(nibble(a, 28) == nibble(b, 28));
    assert(nibble(a, 29) == nibble(b, 29));
    assert(nibble(a, 30) == nibble(b, 30));
    assert(nibble(a, 31) == nibble(b, 31));
    assert(a == b) by (bit_vector)
        requires
            (a >> 124) & 0xf == (b >> 124) & 0xf,
            (a >> 120) & 0xf == (b >> 120) & 0xf,
            (a >> 116) & 0xf == (b >> 116) & 0xf,
            (a >> 112) & 0xf == (b >> 112) & 0xf,
            (a >> 108) & 0xf == (b >> 108) & 0xf,
            (a >> 104) & 0xf == (b >> 104) & 0xf,
            (a >> 100) & 0xf == (b >> 100) & 0xf,
            (a >> 96) & 0xf == (b >> 96) & 0xf,
            (a >> 92) & 0xf == (b >> 92) & 0xf,
            (a >> 88) & 0xf == (b >> 88) & 0xf,
            (a >> 84) & 0xf == (b >> 84) & 0xf,
            (a >> 80) & 0xf == (b >> 80) & 0xf,
            (a >> 76) & 0xf == (b >> 76) & 0xf,
            (a >> 72) & 0xf == (b >> 72) & 0xf,
            (a >> 68) & 0xf == (b >> 68) & 0xf,
            (a >> 64) & 0xf == (b >> 64) & 0xf,
            (a >> 60) & 0xf == (b >> 60) & 0xf,
            (a >> 56) & 0xf == (b >> 56) & 0xf,
            (a >> 52) & 0xf == (b >> 52) & 0xf,
            (a >> 48) & 0xf == (b >> 48) & 0xf,
            (a >> 44) & 0xf == (b >> 44) & 0xf,
            (a >> 40) & 0xf == (b >> 40) & 0xf,
            (a >> 36) & 0xf == (b >> 36) & 0xf,
            (a >> 32) & 0xf == (b >> 32) & 0xf,
            (a >> 28) & 0xf == (b >> 28) & 0xf,
            (a >> 24) & 0xf == (b >> 24) & 0xf,
            (a >> 20) & 0xf == (b >> 20) & 0xf,
            (a >> 16) & 0xf == (b >> 16) & 0xf,
            (a >> 12) & 0xf == (b >> 12) & 0xf,
            (a >> 8) & 0xf == (b >> 8) & 0xf,
            (a >> 4) & 0xf == (b >> 4) & 0xf,
            (a >> 0) & 0xf == (b >> 0) & 0xf,
    ;
}

} // verus!
