//! Text: the model of trimming and of decimal numbers, and the few string operations that the
//! rest of the library builds its messages from.

use vstd::prelude::*;

verus! {

/// Whether a character has the Unicode property `White_Space`.
pub open spec fn is_white_space(c: char) -> bool {
    ||| '\u{9}' <= c <= '\u{d}'
    ||| c == '\u{20}'
    ||| c == '\u{85}'
    ||| c == '\u{a0}'
    ||| c == '\u{1680}'
    ||| '\u{2000}' <= c <= '\u{200a}'
    ||| c == '\u{2028}'
    ||| c == '\u{2029}'
    ||| c == '\u{202f}'
    ||| c == '\u{205f}'
    ||| c == '\u{3000}'
}

/// `s` without its leading white space.
pub open spec fn strip_start(s: Seq<char>) -> Seq<char>
    decreases s.len(),
{
    if s.len() > 0 && is_white_space(s[0]) {
        strip_start(s.drop_first())
    } else {
        s
    }
}

/// `s` without its trailing white space.
pub open spec fn strip_end(s: Seq<char>) -> Seq<char>
    decreases s.len(),
{
    if s.len() > 0 && is_white_space(s.last()) {
        strip_end(s.drop_last())
    } else {
        s
    }
}

/// `s` without its leading and trailing white space.
pub open spec fn stripped(s: Seq<char>) -> Seq<char> {
    strip_end(strip_start(s))
}

/// `str::trim` of the standard library: the text without the white space at its two ends, where
/// white space is what Unicode's `White_Space` property says.
pub assume_specification[ str::trim ](s: &str) -> (trimmed: &str)
    ensures
        trimmed@ == stripped(s@),
;

/// The character of a decimal digit.
pub open spec fn digit(d: nat) -> char {
    (('0' as nat) + d) as char
}

/// A natural number in decimal, without leading zeros.
pub open spec fn digits(n: nat) -> Seq<char>
    decreases n,
{
    if n < 10 {
        seq![digit(n)]
    } else {
        digits(n / 10).push(digit(n % 10))
    }
}

/// An integer in decimal: a minus sign where it is negative, then its digits.
pub open spec fn decimal(n: int) -> Seq<char> {
    if n < 0 {
        seq!['-'] + digits((-n) as nat)
    } else {
        digits(n as nat)
    }
}

/// `String::push` of the standard library: appends the character to the text.
pub assume_specification[ String::push ](s: &mut String, c: char)
    ensures
        final(s)@ == old(s)@.push(c),
;

/// A natural number in decimal.
fn digits_text(n: u128) -> (text: String)
    ensures
        text@ == digits(n as nat),
    decreases n,
{
    let mut text = if n < 10 {
        String::new()
    } else {
        digits_text(n / 10)
    };
    let last: u8 = (n % 10) as u8;
    text.push((48 + last) as char);
    assert(n < 10 ==> text@ =~= digits(n as nat));
    text
}

/// An integer in decimal.
pub fn decimal_text(n: i128) -> (text: String)
    ensures
        text@ == decimal(n as int),
{
    if n < 0 {
        let mut text = String::new();
        text.push('-');
        let below: u128 = (-(n + 1)) as u128;
        text.append(digits_text(below + 1).as_str());
        text
    } else {
        digits_text(n as u128)
    }
}

/// The view of an optional text.
pub open spec fn text_view(text: Option<String>) -> Option<Seq<char>> {
    match text {
        Some(t) => Some(t@),
        None => None,
    }
}

/// The texts of a list, one after another, with `separator` between each two of them.
pub open spec fn joined(parts: Seq<Seq<char>>, separator: Seq<char>) -> Seq<char>
    decreases parts.len(),
{
    if parts.len() == 0 {
        Seq::empty()
    } else if parts.len() == 1 {
        parts[0]
    } else {
        joined(parts.drop_last(), separator) + separator + parts.last()
    }
}

/// Whether `part` stands somewhere in `whole`.
pub open spec fn occurs_in(part: Seq<char>, whole: Seq<char>) -> bool {
    exists|before: Seq<char>, after: Seq<char>| whole == #[trigger] (before + part + after)
}

/// Adds one more part to a text that `joined` describes.
pub proof fn joined_push(parts: Seq<Seq<char>>, separator: Seq<char>, part: Seq<char>)
    ensures
        parts.len() == 0 ==> joined(parts.push(part), separator) == part,
        parts.len() > 0 ==> joined(parts.push(part), separator) == joined(parts, separator)
            + separator + part,
{
    assert(parts.push(part).drop_last() =~= parts);
}

/// The texts of `parts`, with `separator` between each two of them.
pub fn join(parts: &Vec<String>, separator: &str) -> (text: String)
    ensures
        text@ == joined(parts@.map_values(|p: String| p@), separator@),
{
    let ghost views = parts@.map_values(|p: String| p@);
    let mut text = String::new();
    let mut i: usize = 0;
    while i < parts.len()
        invariant
            i <= parts.len(),
            views == parts@.map_values(|p: String| p@),
            text@ == joined(views.take(i as int), separator@),
        decreases parts.len() - i,
    {
        proof {
            joined_push(views.take(i as int), separator@, views[i as int]);
            assert(views.take(i as int).push(views[i as int]) =~= views.take(i + 1));
        }
        if i > 0 {
            text.append(separator);
        }
        text.append(parts[i].as_str());
        i = i + 1;
    }
    assert(views.take(i as int) =~= views);
    text
}

/// A copy of an optional text.
pub fn copy_text(text: &Option<String>) -> (copy: Option<String>)
    ensures
        text_view(copy) == text_view(*text),
{
    match text {
        Some(t) => Some(t.clone()),
        None => None,
    }
}

/// Whether the parts stand in `whole` in their order, none of them overlapping the next.
pub open spec fn in_order(parts: Seq<Seq<char>>, whole: Seq<char>) -> bool
    decreases parts.len(),
{
    if parts.len() == 0 {
        true
    } else {
        exists|before: Seq<char>, after: Seq<char>|
            whole == #[trigger] (before + parts.last() + after) && in_order(
                parts.drop_last(),
                before,
            )
    }
}

/// What stands in a text stands in every text that begins with it.
pub proof fn in_order_extends(parts: Seq<Seq<char>>, whole: Seq<char>, tail: Seq<char>)
    requires
        in_order(parts, whole),
    ensures
        in_order(parts, whole + tail),
{
    if parts.len() > 0 {
        let (before, after) = choose|before: Seq<char>, after: Seq<char>|
            whole == #[trigger] (before + parts.last() + after) && in_order(
                parts.drop_last(),
                before,
            );
        assert(whole + tail =~= before + parts.last() + (after + tail));
    }
}

/// One more part may follow behind the others.
pub proof fn in_order_push(
    parts: Seq<Seq<char>>,
    before: Seq<char>,
    part: Seq<char>,
    after: Seq<char>,
)
    requires
        in_order(parts, before),
    ensures
        in_order(parts.push(part), before + part + after),
{
    assert(parts.push(part).drop_last() =~= parts);
    assert(parts.push(part).last() == part);
}

/// A text with the one part that it is.
pub proof fn in_order_alone(part: Seq<char>)
    ensures
        in_order(seq![part], part),
{
    let none = Seq::<char>::empty();
    assert(in_order(seq![part].drop_last(), none));
    assert(part =~= none + seq![part].last() + none);
}

/// The parts of two texts stand in the two texts put together.
pub proof fn in_order_concat(
    parts: Seq<Seq<char>>,
    whole: Seq<char>,
    more_parts: Seq<Seq<char>>,
    more: Seq<char>,
)
    requires
        in_order(parts, whole),
        in_order(more_parts, more),
    ensures
        in_order(parts + more_parts, whole + more),
    decreases more_parts.len(),
{
    if more_parts.len() == 0 {
        in_order_extends(parts, whole, more);
        assert(parts + more_parts =~= parts);
    } else {
        let last = more_parts.last();
        let (before, after) = choose|before: Seq<char>, after: Seq<char>|
            more == #[trigger] (before + last + after) && in_order(more_parts.drop_last(), before);
        in_order_concat(parts, whole, more_parts.drop_last(), before);
        in_order_push(parts + more_parts.drop_last(), whole + before, last, after);
        assert((parts + more_parts.drop_last()).push(last) =~= parts + more_parts);
        assert(whole + before + last + after =~= whole + more);
    }
}

/// Every one of the parts that stand in a text in their order stands somewhere in it.
pub proof fn in_order_occurs(parts: Seq<Seq<char>>, whole: Seq<char>, i: int)
    requires
        in_order(parts, whole),
        0 <= i < parts.len(),
    ensures
        occurs_in(parts[i], whole),
    decreases parts.len(),
{
    let (before, after) = choose|before: Seq<char>, after: Seq<char>|
        whole == #[trigger] (before + parts.last() + after) && in_order(parts.drop_last(), before);
    if i < parts.len() - 1 {
        in_order_occurs(parts.drop_last(), before, i);
        let (left, right) = choose|left: Seq<char>, right: Seq<char>|
            before == #[trigger] (left + parts[i] + right);
        assert(whole =~= left + parts[i] + (right + parts.last() + after));
    }
}

/// Every text of a list stands in the text that joins them.
pub proof fn joined_shows_every_part(parts: Seq<Seq<char>>, separator: Seq<char>)
    ensures
        in_order(parts, joined(parts, separator)),
    decreases parts.len(),
{
    if parts.len() == 1 {
        let none = Seq::<char>::empty();
        assert(in_order(parts.drop_last(), none));
        assert(joined(parts, separator) =~= none + parts.last() + none);
    } else if parts.len() > 1 {
        let rest = parts.drop_last();
        joined_shows_every_part(rest, separator);
        in_order_extends(rest, joined(rest, separator), separator);
        in_order_push(rest, joined(rest, separator) + separator, parts.last(), Seq::empty());
        assert(rest.push(parts.last()) =~= parts);
        assert(joined(parts, separator) =~= joined(rest, separator) + separator + parts.last()
            + Seq::empty());
    }
}

/// A text stands in the one that begins with it.
pub proof fn occurs_at_start(part: Seq<char>, after: Seq<char>)
    ensures
        occurs_in(part, part + after),
{
    assert(part + after =~= Seq::empty() + part + after);
}

/// A text stands in the one that ends in it.
pub proof fn occurs_at_end(before: Seq<char>, part: Seq<char>)
    ensures
        occurs_in(part, before + part),
{
    assert(before + part =~= before + part + Seq::empty());
}

/// What stands in a part of a text stands in the text.
pub proof fn occurs_within(part: Seq<char>, middle: Seq<char>, whole: Seq<char>)
    requires
        occurs_in(part, middle),
        occurs_in(middle, whole),
    ensures
        occurs_in(part, whole),
{
    let (a, b) = choose|a: Seq<char>, b: Seq<char>| middle == #[trigger] (a + part + b);
    let (c, d) = choose|c: Seq<char>, d: Seq<char>| whole == #[trigger] (c + middle + d);
    assert(whole =~= (c + a) + part + (b + d));
}

/// Leading white space, the text that is left, and what that says of it.
proof fn strip_start_splits(s: Seq<char>) -> (k: int)
    ensures
        0 <= k <= s.len(),
        strip_start(s) == s.skip(k),
        forall|i: int| 0 <= i < k ==> is_white_space(#[trigger] s[i]),
        k < s.len() ==> !is_white_space(s[k]),
    decreases s.len(),
{
    if s.len() > 0 && is_white_space(s[0]) {
        let k = strip_start_splits(s.drop_first());
        assert(s.drop_first().skip(k) =~= s.skip(k + 1));
        assert forall|i: int| 0 <= i < k + 1 implies is_white_space(#[trigger] s[i]) by {
            if i > 0 {
                assert(s[i] == s.drop_first()[i - 1]);
            }
        }
        k + 1
    } else {
        assert(s.skip(0) =~= s);
        0
    }
}

/// Trailing white space, the text that is left, and what that says of it.
proof fn strip_end_splits(s: Seq<char>) -> (k: int)
    ensures
        0 <= k <= s.len(),
        strip_end(s) == s.take(k),
        forall|i: int| k <= i < s.len() ==> is_white_space(#[trigger] s[i]),
        k > 0 ==> !is_white_space(s[k - 1]),
    decreases s.len(),
{
    if s.len() > 0 && is_white_space(s.last()) {
        let k = strip_end_splits(s.drop_last());
        assert(s.drop_last().take(k) =~= s.take(k));
        assert forall|i: int| k <= i < s.len() implies is_white_space(#[trigger] s[i]) by {
            if i < s.len() - 1 {
                assert(s[i] == s.drop_last()[i]);
            }
        }
        k
    } else {
        assert(s.take(s.len() as int) =~= s);
        s.len() as int
    }
}

/// Trimming leaves a part of the text that neither begins nor ends in white space, and all that
/// it drops is white space.
pub proof fn stripped_is_the_core(s: Seq<char>)
    ensures
        exists|low: int, high: int|
            0 <= low <= high <= s.len() && stripped(s) == #[trigger] s.subrange(low, high) && (
            forall|i: int|
                0 <= i < low || high <= i < s.len() ==> is_white_space(#[trigger] s[i])),
        stripped(s).len() > 0 ==> !is_white_space(stripped(s)[0]) && !is_white_space(
            stripped(s).last(),
        ),
{
    let low = strip_start_splits(s);
    let rest = strip_start(s);
    let kept = strip_end_splits(rest);
    assert(stripped(s) =~= s.subrange(low, low + kept));
    assert forall|i: int| 0 <= i < low || low + kept <= i < s.len() implies is_white_space(
        #[trigger] s[i],
    ) by {
        if i >= low {
            assert(s[i] == rest[i - low]);
        }
    }
    if kept > 0 {
        assert(stripped(s).last() == rest[kept - 1]);
    }
}

/// Trimming a second time changes nothing.
pub proof fn stripped_twice(s: Seq<char>)
    ensures
        stripped(stripped(s)) == stripped(s),
{
    stripped_is_the_core(s);
}

/// Trimming leaves nothing of a text exactly when the text holds nothing but white space.
pub proof fn stripped_is_empty(s: Seq<char>)
    ensures
        stripped(s).len() == 0 <==> (forall|i: int|
            0 <= i < s.len() ==> is_white_space(#[trigger] s[i])),
{
    stripped_is_the_core(s);
    let (low, high) = choose|low: int, high: int|
        0 <= low <= high <= s.len() && stripped(s) == #[trigger] s.subrange(low, high) && (forall|
            i: int,
        |
            0 <= i < low || high <= i < s.len() ==> is_white_space(#[trigger] s[i]));
    if low < high {
        assert(stripped(s)[0] == s[low]);
    }
}

/// The lengths of the parts, all together.
pub open spec fn total_length(parts: Seq<Seq<char>>) -> nat
    decreases parts.len(),
{
    if parts.len() == 0 {
        0
    } else {
        total_length(parts.drop_last()) + parts.last().len()
    }
}

/// Whether a text reads as the parts do, one after another: they stand in it in their order, and
/// nothing else does.
pub open spec fn reads(parts: Seq<Seq<char>>, whole: Seq<char>) -> bool {
    in_order(parts, whole) && whole.len() == total_length(parts)
}

/// A text reads as itself.
pub proof fn reads_alone(part: Seq<char>)
    ensures
        reads(seq![part], part),
{
    in_order_alone(part);
    assert(seq![part].drop_last() =~= Seq::<Seq<char>>::empty());
    assert(total_length(seq![part].drop_last()) == 0);
}

/// A text with one more part at its end reads so.
pub proof fn reads_push(parts: Seq<Seq<char>>, whole: Seq<char>, part: Seq<char>)
    requires
        reads(parts, whole),
    ensures
        reads(parts.push(part), whole + part),
{
    in_order_push(parts, whole, part, Seq::empty());
    assert(whole + part + Seq::empty() =~= whole + part);
    assert(parts.push(part).drop_last() =~= parts);
}

/// The first `n` parts, put together.
pub open spec fn together(parts: Seq<Seq<char>>, n: nat) -> Seq<char>
    decreases n,
{
    if n <= 1 {
        parts[0]
    } else {
        together(parts, (n - 1) as nat) + parts[n - 1]
    }
}

/// Parts that are put together read so.
pub proof fn together_reads(parts: Seq<Seq<char>>)
    requires
        parts.len() > 0,
    ensures
        reads(parts, together(parts, parts.len())),
    decreases parts.len(),
{
    if parts.len() == 1 {
        reads_alone(parts[0]);
        assert(seq![parts[0]] =~= parts);
    } else {
        let rest = parts.drop_last();
        together_reads(rest);
        together_of_more(rest, parts, rest.len());
        reads_push(rest, together(rest, rest.len()), parts.last());
        assert(rest.push(parts.last()) =~= parts);
    }
}

/// The first parts do not depend on the ones behind them.
proof fn together_of_more(parts: Seq<Seq<char>>, more: Seq<Seq<char>>, n: nat)
    requires
        0 < n <= parts.len() <= more.len(),
        forall|i: int| 0 <= i < n ==> #[trigger] parts[i] == more[i],
    ensures
        together(parts, n) == together(more, n),
    decreases n,
{
    if n > 1 {
        together_of_more(parts, more, (n - 1) as nat);
    }
}

/// What stands in a text is no longer than the text.
proof fn in_order_fits(parts: Seq<Seq<char>>, whole: Seq<char>)
    requires
        in_order(parts, whole),
    ensures
        total_length(parts) <= whole.len(),
    decreases parts.len(),
{
    if parts.len() > 0 {
        let (before, after) = choose|before: Seq<char>, after: Seq<char>|
            whole == #[trigger] (before + parts.last() + after) && in_order(
                parts.drop_last(),
                before,
            );
        in_order_fits(parts.drop_last(), before);
    }
}

/// No two texts read as the same parts do.
pub proof fn reads_fixes_the_text(parts: Seq<Seq<char>>, whole: Seq<char>, other: Seq<char>)
    requires
        reads(parts, whole),
        reads(parts, other),
    ensures
        whole == other,
    decreases parts.len(),
{
    if parts.len() == 0 {
        assert(whole =~= other);
    } else {
        let rest = parts.drop_last();
        let (a, b) = choose|a: Seq<char>, b: Seq<char>|
            whole == #[trigger] (a + parts.last() + b) && in_order(rest, a);
        let (c, d) = choose|c: Seq<char>, d: Seq<char>|
            other == #[trigger] (c + parts.last() + d) && in_order(rest, c);
        in_order_fits(rest, a);
        in_order_fits(rest, c);
        reads_fixes_the_text(rest, a, c);
        assert(whole =~= other);
    }
}

/// The number that a text of decimal digits names.
pub open spec fn number_named(text: Seq<char>) -> int
    decreases text.len(),
{
    if text.len() == 0 {
        0
    } else {
        10 * number_named(text.drop_last()) + (text.last() as int - '0' as int)
    }
}

/// The digits of a number name it: each of them is one of the ten, and none that leads is a zero.
pub proof fn digits_name_the_number(n: nat)
    ensures
        number_named(digits(n)) == n,
        digits(n).len() > 0,
        forall|i: int| 0 <= i < digits(n).len() ==> '0' <= #[trigger] digits(n)[i] <= '9',
        n > 0 ==> digits(n)[0] != '0',
        n == 0 ==> digits(n).len() == 1,
    decreases n,
{
    let all = digits(n);
    if n < 10 {
        assert(all.drop_last() =~= Seq::empty());
        assert(number_named(all.drop_last()) == 0);
    } else {
        digits_name_the_number(n / 10);
        assert(all.drop_last() =~= digits(n / 10));
        assert(all[0] == digits(n / 10)[0]);
        assert forall|i: int| 0 <= i < all.len() implies '0' <= #[trigger] all[i] <= '9' by {
            if i < all.len() - 1 {
                assert(all[i] == digits(n / 10)[i]);
            }
        }
    }
}

/// An integer in decimal is a minus sign, where it is negative, and the digits that name its
/// amount.
pub proof fn decimal_names_the_integer(n: int)
    ensures
        n >= 0 ==> number_named(decimal(n)) == n && decimal(n)[0] != '-',
        n < 0 ==> decimal(n)[0] == '-' && number_named(decimal(n).drop_first()) == -n,
        forall|i: int| 0 < i < decimal(n).len() ==> '0' <= #[trigger] decimal(n)[i] <= '9',
        decimal(n).len() > 0,
        n > 0 ==> decimal(n)[0] != '0',
        n < 0 ==> decimal(n).len() > 1 && decimal(n)[1] != '0',
        n == 0 ==> decimal(n).len() == 1,
{
    if n < 0 {
        let digits = digits((-n) as nat);
        digits_name_the_number((-n) as nat);
        assert(decimal(n).drop_first() =~= digits);
        assert(decimal(n)[1] == digits[0]);
        assert forall|i: int| 0 < i < decimal(n).len() implies '0' <= #[trigger] decimal(n)[i]
            <= '9' by {
            assert(decimal(n)[i] == digits[i - 1]);
        }
    } else {
        digits_name_the_number(n as nat);
    }
}

/// No texts at all join to nothing, one to itself, and one more comes behind a separator.
pub proof fn joined_grows(parts: Seq<Seq<char>>, separator: Seq<char>, part: Seq<char>)
    ensures
        joined(Seq::empty(), separator) == Seq::<char>::empty(),
        joined(seq![part], separator) == part,
        parts.len() > 0 ==> reads(
            seq![joined(parts, separator), separator, part],
            joined(parts.push(part), separator),
        ),
{
    joined_push(parts, separator, part);
    if parts.len() > 0 {
        let whole = joined(parts, separator);
        reads_alone(whole);
        reads_push(seq![whole], whole, separator);
        reads_push(seq![whole].push(separator), whole + separator, part);
        assert(seq![whole].push(separator).push(part) =~= seq![whole, separator, part]);
    }
}

/// An optional text is seen as it is.
pub proof fn texts_are_seen(text: String)
    ensures
        text_view(Some(text)) == Some(text@),
        text_view(None) == None::<Seq<char>>,
{
}

} // verus!
