//! Patterns of `LIKE` and `ILIKE`.

use crate::text::{reads, reads_alone, reads_push};
use vstd::prelude::*;

verus! {

/// Whether a character means something else than itself in a pattern.
pub open spec fn is_special(c: char) -> bool {
    c == '\\' || c == '%' || c == '_'
}

/// A character, as a pattern names it: a backslash stands before one that is special.
pub open spec fn escaped_char(c: char) -> Seq<char> {
    if is_special(c) {
        seq!['\\', c]
    } else {
        seq![c]
    }
}

/// A text, as a pattern names it: a backslash stands before every character that is special.
pub open spec fn escaped(text: Seq<char>) -> Seq<char>
    decreases text.len(),
{
    if text.len() == 0 {
        Seq::empty()
    } else {
        escaped_char(text[0]) + escaped(text.drop_first())
    }
}

/// The pattern that matches whatever holds `text`.
pub open spec fn containing(text: Seq<char>) -> Seq<char> {
    "%"@ + escaped(text) + "%"@
}

/// The pattern that a text makes with a `%` on either side: what is special in the text stays so.
pub open spec fn between_percents(text: Seq<char>) -> Seq<char> {
    "%"@ + text + "%"@
}

/// Whether a text matches a pattern: `%` stands for any characters, `_` for any one, a backslash
/// makes the character behind it stand for itself, and every other character stands for itself.
/// `same` says which characters pass for the same: for `LIKE` only equal ones, for `ILIKE` also
/// those that differ in case.
pub open spec fn matches_pattern(
    text: Seq<char>,
    pattern: Seq<char>,
    same: spec_fn(char, char) -> bool,
) -> bool
    decreases pattern.len(), text.len(),
{
    if pattern.len() == 0 {
        text.len() == 0
    } else if pattern[0] == '%' {
        matches_pattern(text, pattern.drop_first(), same) || (text.len() > 0 && matches_pattern(
            text.drop_first(),
            pattern,
            same,
        ))
    } else if pattern[0] == '\\' {
        pattern.len() > 1 && text.len() > 0 && same(pattern[1], text[0]) && matches_pattern(
            text.drop_first(),
            pattern.skip(2),
            same,
        )
    } else {
        text.len() > 0 && (pattern[0] == '_' || same(pattern[0], text[0])) && matches_pattern(
            text.drop_first(),
            pattern.drop_first(),
            same,
        )
    }
}

/// Whether `part` stands in `whole` from the place `at` on, up to what passes for the same.
pub open spec fn stands_at(
    part: Seq<char>,
    whole: Seq<char>,
    at: int,
    same: spec_fn(char, char) -> bool,
) -> bool {
    0 <= at <= whole.len() - part.len() && forall|k: int|
        0 <= k < part.len() ==> same(#[trigger] part[k], whole[at + k])
}

/// Whether `whole` holds `part`, up to what passes for the same.
pub open spec fn holds(
    whole: Seq<char>,
    part: Seq<char>,
    same: spec_fn(char, char) -> bool,
) -> bool {
    exists|at: int| stands_at(part, whole, at, same)
}

/// One more character at the end of a text comes at the end of what names it.
proof fn escaped_push(text: Seq<char>, c: char)
    ensures
        escaped(text.push(c)) == escaped(text) + escaped_char(c),
    decreases text.len(),
{
    if text.len() == 0 {
        assert(text.push(c).drop_first() =~= text);
        assert(escaped(text.push(c)) =~= escaped(text) + escaped_char(c));
    } else {
        escaped_push(text.drop_first(), c);
        assert(text.push(c).drop_first() =~= text.drop_first().push(c));
        assert(escaped(text.push(c)) =~= escaped(text) + escaped_char(c));
    }
}

/// The pattern that matches whatever holds `text`.
pub fn containing_text(text: &str) -> (pattern: String)
    ensures
        pattern@ == containing(text@),
{
    let mut pattern = "%".to_string();
    for c in iter: text.chars()
        invariant
            iter.seq() == text@,
            pattern@ == "%"@ + escaped(text@.take(iter.index())),
    {
        proof {
            assert(text@.take(iter.index() + 1) =~= text@.take(iter.index()).push(c));
            escaped_push(text@.take(iter.index()), c);
            assert("%"@ + escaped(text@.take(iter.index() + 1)) =~= "%"@ + escaped(
                text@.take(iter.index()),
            ) + escaped_char(c));
        }
        let ghost before = pattern@;
        if c == '\\' || c == '%' || c == '_' {
            pattern.push('\\');
        }
        pattern.push(c);
        assert(pattern@ =~= before + escaped_char(c));
    }
    assert(text@.take(text@.len() as int) =~= text@);
    pattern.append("%");
    pattern
}

/// The pattern that a text makes with a `%` on either side.
pub fn between_percents_text(text: &str) -> (pattern: String)
    ensures
        pattern@ == between_percents(text@),
{
    "%".to_string().concat(text).concat("%")
}

/// A pattern that ends in `%` behind what names a text matches whatever begins with the text.
proof fn open_end_matches(text: Seq<char>, part: Seq<char>, same: spec_fn(char, char) -> bool)
    ensures
        matches_pattern(text, escaped(part) + seq!['%'], same) <==> stands_at(part, text, 0, same),
    decreases part.len(), text.len(),
{
    let pattern = escaped(part) + seq!['%'];
    if part.len() == 0 {
        assert(pattern =~= seq!['%']);
        assert(pattern.drop_first() =~= Seq::<char>::empty());
        assert(text.len() == 0 ==> matches_pattern(text, pattern.drop_first(), same));
        if text.len() > 0 {
            open_end_matches(text.drop_first(), part, same);
        }
    } else {
        let rest = part.drop_first();
        let rest_pattern = escaped(rest) + seq!['%'];
        if is_special(part[0]) {
            assert(pattern.skip(2) =~= rest_pattern);
            assert(pattern[0] == '\\' && pattern[1] == part[0]);
        } else {
            assert(pattern.drop_first() =~= rest_pattern);
            assert(pattern[0] == part[0]);
        }
        if text.len() > 0 {
            open_end_matches(text.drop_first(), rest, same);
            if stands_at(part, text, 0, same) {
                assert(same(part[0], text[0]));
                assert forall|k: int| 0 <= k < rest.len() implies same(
                    #[trigger] rest[k],
                    text.drop_first()[0 + k],
                ) by {
                    assert(rest[k] == part[k + 1]);
                }
            }
            if stands_at(rest, text.drop_first(), 0, same) && same(part[0], text[0]) {
                assert forall|k: int| 0 <= k < part.len() implies same(
                    #[trigger] part[k],
                    text[0 + k],
                ) by {
                    if k > 0 {
                        assert(part[k] == rest[k - 1]);
                        assert(text[k] == text.drop_first()[0 + (k - 1)]);
                    }
                }
            }
        }
    }
}

/// A pattern that begins with `%` matches what ends in a match of the rest of it.
proof fn open_start_matches(text: Seq<char>, rest: Seq<char>, same: spec_fn(char, char) -> bool)
    ensures
        matches_pattern(text, seq!['%'] + rest, same) <==> exists|at: int|
            0 <= at <= text.len() && #[trigger] matches_pattern(text.skip(at), rest, same),
    decreases text.len(),
{
    let pattern = seq!['%'] + rest;
    assert(pattern.drop_first() =~= rest);
    assert(text.skip(0) =~= text);
    if text.len() == 0 {
        assert forall|at: int| 0 <= at <= text.len() implies #[trigger] text.skip(at) == text by {
            assert(text.skip(at) =~= text);
        }
        assert(matches_pattern(text, rest, same) ==> matches_pattern(text.skip(0), rest, same));
    } else {
        let shorter = text.drop_first();
        open_start_matches(shorter, rest, same);
        if matches_pattern(shorter, pattern, same) {
            let at = choose|at: int|
                0 <= at <= shorter.len() && #[trigger] matches_pattern(
                    shorter.skip(at),
                    rest,
                    same,
                );
            assert(shorter.skip(at) =~= text.skip(at + 1));
            assert(matches_pattern(text.skip(at + 1), rest, same));
        }
        if matches_pattern(text, rest, same) {
            assert(matches_pattern(text.skip(0), rest, same));
        }
        if exists|at: int|
            0 <= at <= text.len() && #[trigger] matches_pattern(text.skip(at), rest, same) {
            let at = choose|at: int|
                0 <= at <= text.len() && #[trigger] matches_pattern(text.skip(at), rest, same);
            if at > 0 {
                assert(shorter.skip(at - 1) =~= text.skip(at));
            }
        }
    }
}

/// The pattern of a text matches exactly what holds the text, whatever characters it is made of.
pub proof fn containing_matches_what_holds(
    text: Seq<char>,
    part: Seq<char>,
    same: spec_fn(char, char) -> bool,
)
    ensures
        matches_pattern(text, containing(part), same) <==> holds(text, part, same),
{
    reveal_strlit("%");
    let rest = escaped(part) + seq!['%'];
    assert(containing(part) =~= seq!['%'] + rest);
    open_start_matches(text, rest, same);
    if matches_pattern(text, containing(part), same) {
        let at = choose|at: int|
            0 <= at <= text.len() && #[trigger] matches_pattern(text.skip(at), rest, same);
        open_end_matches(text.skip(at), part, same);
        assert forall|k: int| 0 <= k < part.len() implies same(#[trigger] part[k], text[at + k]) by {
            assert(text.skip(at)[0 + k] == text[at + k]);
        }
        assert(stands_at(part, text, at, same));
    }
    if holds(text, part, same) {
        let at = choose|at: int| stands_at(part, text, at, same);
        assert forall|k: int| 0 <= k < part.len() implies same(
            #[trigger] part[k],
            text.skip(at)[0 + k],
        ) by {
            assert(text.skip(at)[0 + k] == text[at + k]);
        }
        open_end_matches(text.skip(at), part, same);
        assert(matches_pattern(text.skip(at), rest, same));
    }
}

/// A text without special characters is named by itself.
proof fn plain_text_is_its_name(text: Seq<char>)
    requires
        forall|i: int| 0 <= i < text.len() ==> !is_special(#[trigger] text[i]),
    ensures
        escaped(text) == text,
    decreases text.len(),
{
    if text.len() > 0 {
        let rest = text.drop_first();
        assert forall|i: int| 0 <= i < rest.len() implies !is_special(#[trigger] rest[i]) by {
            assert(rest[i] == text[i + 1]);
        }
        plain_text_is_its_name(rest);
        assert(escaped(text) =~= text);
    } else {
        assert(escaped(text) =~= text);
    }
}

/// A text without special characters makes, between two `%`, the pattern that matches exactly what
/// holds the text.
pub proof fn plain_text_between_percents(
    text: Seq<char>,
    part: Seq<char>,
    same: spec_fn(char, char) -> bool,
)
    requires
        forall|i: int| 0 <= i < part.len() ==> !is_special(#[trigger] part[i]),
    ensures
        matches_pattern(text, between_percents(part), same) <==> holds(text, part, same),
{
    plain_text_is_its_name(part);
    containing_matches_what_holds(text, part, same);
}

/// A text between two `%` stands there as it is.
pub proof fn between_percents_reads(text: Seq<char>)
    ensures
        reads(seq!["%"@, text, "%"@], between_percents(text)),
{
    reads_alone("%"@);
    reads_push(seq!["%"@], "%"@, text);
    reads_push(seq!["%"@].push(text), "%"@ + text, "%"@);
    assert(seq!["%"@].push(text).push("%"@) =~= seq!["%"@, text, "%"@]);
}

} // verus!
