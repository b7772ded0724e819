//! The identifiers of clients: UUIDs, held as the number that their 128 bits make up.

use vstd::prelude::*;

verus! {

/// The places of the text of a UUID that hold a hyphen.
pub open spec fn is_hyphen(place: int) -> bool {
    place == 8 || place == 13 || place == 18 || place == 23
}

/// The number of hyphens that stand before a place.
pub open spec fn hyphens_before(place: int) -> int {
    if place <= 8 {
        0
    } else if place <= 13 {
        1
    } else if place <= 18 {
        2
    } else if place <= 23 {
        3
    } else {
        4
    }
}

/// The hexadecimal digit at `place` (from the left, from zero) among the 32 digits of `id`.
pub open spec fn nibble(id: u128, place: int) -> u128 {
    (id >> ((124 - 4 * place) as u128)) & 0xf
}

/// The lower-case character of a hexadecimal digit.
pub open spec fn hex_digit(d: u128) -> char {
    if d < 10 {
        ('0' as int + d) as char
    } else {
        ('a' as int + (d - 10)) as char
    }
}

/// The text of an identifier: its 32 digits in lower case, in groups of 8, 4, 4, 4 and 12.
pub open spec fn id_text(id: u128) -> Seq<char> {
    Seq::new(
        36,
        |i: int|
            if is_hyphen(i) {
                '-'
            } else {
                hex_digit(nibble(id, i - hyphens_before(i)))
            },
    )
}

/// The identifier that `uuid::Uuid::parse_str` reads from a text, if it accepts the text.
pub uninterp spec fn parsed_id(text: Seq<char>) -> Option<u128>;

/// `uuid::Uuid::to_string`: the digits in lower case, with hyphens between the groups. That
/// `uuid::Uuid::parse_str` reads the same identifier back from it is claimed too.
#[verifier::external_body]
pub(crate) fn id_to_text(id: u128) -> (text: String)
    ensures
        text@ == id_text(id),
        parsed_id(text@) == Some(id),
{
    uuid::Uuid::from_u128(id).to_string()
}

/// `uuid::Uuid::parse_str`, whose result `parsed_id` names.
#[verifier::external_body]
pub(crate) fn parse_id(text: &str) -> (id: Option<u128>)
    ensures
        id == parsed_id(text@),
{
    uuid::Uuid::parse_str(text).ok().map(|id| id.as_u128())
}

/// Hexadecimal digits have different characters.
proof fn hex_digits_differ(a: u128, b: u128)
    requires
        a <= 0xf,
        b <= 0xf,
        hex_digit(a) == hex_digit(b),
    ensures
        a == b,
{
}

/// The place in the text of the hexadecimal digit at `place` among the 32 digits.
spec fn digit_place(place: int) -> int {
    if place < 8 {
        place
    } else if place < 12 {
        place + 1
    } else if place < 16 {
        place + 2
    } else if place < 20 {
        place + 3
    } else {
        place + 4
    }
}

/// Identifiers with the same text have the same digits.
proof fn same_text_same_digit(a: u128, b: u128, place: int)
    requires
        id_text(a) == id_text(b),
        0 <= place < 32,
    ensures
        nibble(a, place) == nibble(b, place),
{
    let i = digit_place(place);
    assert(!is_hyphen(i) && i - hyphens_before(i) == place);
    assert(id_text(a)[i] == hex_digit(nibble(a, place)));
    assert(id_text(b)[i] == hex_digit(nibble(b, place)));
    let shift: u128 = (124 - 4 * place) as u128;
    assert((a >> shift) & 0xf <= 0xf) by (bit_vector);
    assert((b >> shift) & 0xf <= 0xf) by (bit_vector);
    hex_digits_differ(nibble(a, place), nibble(b, place));
}

/// Identifiers with the same text agree in their first digits.
proof fn same_text_same_start(a: u128, b: u128, place: int)
    requires
        id_text(a) == id_text(b),
        0 <= place < 32,
    ensures
        a >> ((124 - 4 * place) as u128) == b >> ((124 - 4 * place) as u128),
    decreases place,
{
    same_text_same_digit(a, b, place);
    let shift: u128 = (124 - 4 * place) as u128;
    if place == 0 {
        assert(a >> shift == b >> shift) by (bit_vector)
            requires
                shift == 124,
                (a >> shift) & 0xf == (b >> shift) & 0xf,
        ;
    } else {
        same_text_same_start(a, b, place - 1);
        let before: u128 = (124 - 4 * (place - 1)) as u128;
        assert(a >> shift == b >> shift) by (bit_vector)
            requires
                before == shift + 4,
                before <= 124,
                a >> before == b >> before,
                (a >> shift) & 0xf == (b >> shift) & 0xf,
        ;
    }
}

/// No two identifiers have the same text.
pub proof fn id_texts_differ(a: u128, b: u128)
    ensures
        id_text(a) == id_text(b) <==> a == b,
{
    if id_text(a) == id_text(b) {
        same_text_same_start(a, b, 31);
        let shift: u128 = (124 - 4 * 31) as u128;
        assert(a == b) by (bit_vector)
            requires
                shift == 0,
                a >> shift == b >> shift,
        ;
    }
}

} // verus!
