//! What the operations on text come to, said of texts by how they are put together.

use vstd::prelude::*;
use crate::text;

verus! {

/// A text of nothing but white space.
pub open spec fn blank(text: Seq<char>) -> bool {
    forall|i: int| 0 <= i < text.len() ==> text::white_space(#[trigger] text[i])
}

/// Law: which characters are white space.
pub proof fn law_what_white_space_is(character: char)
    ensures
        text::white_space(character) <==> character == '\t' || character == '\n' || character
            == '\u{b}' || character == '\u{c}' || character == '\r' || character == ' '
            || character == '\u{85}' || character == '\u{a0}' || character == '\u{1680}'
            || '\u{2000}' <= character <= '\u{200a}' || character == '\u{2028}' || character
            == '\u{2029}' || character == '\u{202f}' || character == '\u{205f}' || character
            == '\u{3000}',
{
}

/// White space at the start goes.
proof fn lemma_trimmed_start(left: Seq<char>, rest: Seq<char>)
    requires
        blank(left),
    ensures
        text::trimmed_start(left + rest) == text::trimmed_start(rest),
    decreases left.len(),
{
    if left.len() == 0 {
        assert(left + rest =~= rest);
    } else {
        let whole = left + rest;
        assert(whole[0] == left[0]);
        assert(whole.drop_first() =~= left.drop_first() + rest);
        lemma_trimmed_start(left.drop_first(), rest);
    }
}

/// White space at the end goes.
proof fn lemma_trimmed_end(rest: Seq<char>, right: Seq<char>)
    requires
        blank(right),
    ensures
        text::trimmed_end(rest + right) == text::trimmed_end(rest),
    decreases right.len(),
{
    if right.len() == 0 {
        assert(rest + right =~= rest);
    } else {
        let whole = rest + right;
        assert(whole.last() == right.last());
        assert(right.last() == right[right.len() - 1]);
        assert(whole.drop_last() =~= rest + right.drop_last());
        lemma_trimmed_end(rest, right.drop_last());
    }
}

/// Law: what is trimmed of a text is the white space around its core, and no more: the core starts
/// and ends with something else, or is nothing.
pub proof fn law_trimming_leaves_the_core(left: Seq<char>, core: Seq<char>, right: Seq<char>)
    requires
        blank(left),
        blank(right),
        core.len() > 0 ==> !text::white_space(core[0]) && !text::white_space(
            core[core.len() - 1],
        ),
    ensures
        text::trimmed(left + core + right) == core,
{
    assert(left + core + right =~= left + (core + right));
    lemma_trimmed_start(left, core + right);
    if core.len() == 0 {
        assert(core + right =~= right);
        assert(right + Seq::<char>::empty() =~= right);
        lemma_trimmed_start(right, Seq::empty());
        assert(text::trimmed_start(Seq::<char>::empty()) =~= Seq::empty());
        assert(text::trimmed_end(Seq::<char>::empty()) =~= Seq::empty());
        assert(core =~= Seq::empty());
    } else {
        assert((core + right)[0] == core[0]);
        lemma_trimmed_end(core, right);
        assert(core.last() == core[core.len() - 1]);
    }
}

/// A text so many times in a row.
pub open spec fn copies(pattern: Seq<char>, count: nat) -> Seq<char>
    decreases count,
{
    if count == 0 {
        Seq::empty()
    } else {
        pattern + copies(pattern, (count - 1) as nat)
    }
}

/// Law: a leading pattern is dropped as often as it stands there, and nothing else is.
pub proof fn law_leading_copies_are_dropped(pattern: Seq<char>, count: nat, rest: Seq<char>)
    requires
        pattern.len() > 0,
        !pattern.is_prefix_of(rest),
    ensures
        text::without_leading(copies(pattern, count) + rest, pattern) == rest,
    decreases count,
{
    if count == 0 {
        assert(copies(pattern, count) + rest =~= rest);
    } else {
        let fewer = copies(pattern, (count - 1) as nat) + rest;
        let whole = copies(pattern, count) + rest;
        assert(whole =~= pattern + fewer);
        assert(whole.skip(pattern.len() as int) =~= fewer);
        assert(pattern.is_prefix_of(whole));
        law_leading_copies_are_dropped(pattern, (count - 1) as nat, rest);
    }
}

/// Law: what follows a prefix is the rest of the text, and a text that does not start with it has
/// none.
pub proof fn law_a_prefix_is_followed_by_the_rest(prefix: Seq<char>, rest: Seq<char>)
    ensures
        text::after_prefix(prefix + rest, prefix) == Some(rest),
        !prefix.is_prefix_of(rest) ==> text::after_prefix(rest, prefix) is None,
{
    assert((prefix + rest).skip(prefix.len() as int) =~= rest);
    assert(prefix.is_prefix_of(prefix + rest));
}

/// Law: a pattern occurs in a text exactly where the text is something, the pattern and something.
pub proof fn law_a_pattern_occurs_between_two_parts(
    left: Seq<char>,
    pattern: Seq<char>,
    right: Seq<char>,
    whole: Seq<char>,
)
    ensures
        text::occurs(left + pattern + right, pattern),
        (forall|at: int|
            0 <= at <= whole.len() - pattern.len() ==> #[trigger] whole.subrange(
                at,
                at + pattern.len(),
            ) != pattern) ==> !text::occurs(whole, pattern),
        text::ends(left + pattern, pattern),
        text::ends(whole, pattern) ==> whole == whole.take(whole.len() - pattern.len()) + pattern,
{
    let sum = left + pattern + right;
    assert(sum.subrange(left.len() as int, left.len() as int + pattern.len()) =~= pattern);
    assert(text::matches_at(sum, pattern, left.len() as int));
    let end = left + pattern;
    assert(end.subrange(left.len() as int, left.len() as int + pattern.len()) =~= pattern);
    if text::occurs(whole, pattern) {
        let at = choose|at: int| text::matches_at(whole, pattern, at);
        assert(whole.subrange(at, at + pattern.len()) == pattern);
    }
    if text::ends(whole, pattern) {
        assert(whole =~= whole.take(whole.len() - pattern.len()) + pattern);
    }
}

/// Law: the first line of a text goes up to its first newline, without a carriage return before
/// it, and the other lines are those of what follows the newline.
pub proof fn law_a_newline_ends_a_line(line: Seq<char>, rest: Seq<char>)
    requires
        !line.contains('\n'),
    ensures
        text::lines_of(line.push('\n') + rest) == seq![
            if line.len() > 0 && line[line.len() - 1] == '\r' {
                line.take(line.len() - 1)
            } else {
                line
            },
        ] + text::lines_of(rest),
{
    let whole = line.push('\n') + rest;
    let tail = seq!['\n'] + rest;
    assert(whole =~= line + tail);
    text::lemma_first_mark(line, '\n');
    if text::first_mark(line, '\n') < line.len() {
        assert(line.contains(line[text::first_mark(line, '\n')]));
    }
    text::lemma_first_mark_of_sum(line, tail, '\n');
    assert(tail[0] == '\n');
    assert(text::first_mark(tail, '\n') == 0);
    assert(whole.take(line.len() as int) =~= line);
    assert(whole.skip(line.len() as int + 1) =~= rest);
    if line.len() > 0 {
        assert(line.drop_last() =~= line.take(line.len() - 1));
    }
}

/// Law: a text without a newline is one line, and an empty text is none.
pub proof fn law_a_text_without_newlines_is_a_line(line: Seq<char>)
    requires
        !line.contains('\n'),
    ensures
        text::lines_of(line) == if line.len() == 0 {
            Seq::<Seq<char>>::empty()
        } else {
            seq![line]
        },
{
    text::lemma_first_mark(line, '\n');
    if text::first_mark(line, '\n') < line.len() {
        assert(line.contains(line[text::first_mark(line, '\n')]));
    }
}

/// The first match is at no position before one that matches, where none before it does.
proof fn lemma_first_match_at(whole: Seq<char>, pattern: Seq<char>, at: int)
    requires
        0 <= at,
        at + pattern.len() <= whole.len(),
        whole.subrange(at, at + pattern.len()) == pattern,
        forall|i: int|
            0 <= i < at ==> #[trigger] whole.subrange(i, i + pattern.len()) != pattern,
    ensures
        text::first_match(whole, pattern) == Some(at),
    decreases at,
{
    if at == 0 {
        assert(whole.take(pattern.len() as int) =~= pattern);
    } else {
        let rest = whole.drop_first();
        if pattern.is_prefix_of(whole) {
            assert(whole.subrange(0, 0int + pattern.len()) =~= pattern);
        }
        assert(rest.subrange(at - 1, at - 1 + pattern.len()) =~= pattern);
        assert forall|i: int| 0 <= i < at - 1 implies #[trigger] rest.subrange(
            i,
            i + pattern.len(),
        ) != pattern by {
            assert(rest.subrange(i, i + pattern.len()) =~= whole.subrange(
                i + 1,
                i + 1 + pattern.len(),
            ));
        }
        lemma_first_match_at(rest, pattern, at - 1);
    }
}

/// Law: the first part of a text goes up to the first separator in it, and the other parts are
/// those of what follows the separator.
pub proof fn law_a_separator_ends_a_part(
    part: Seq<char>,
    separator: Seq<char>,
    rest: Seq<char>,
)
    requires
        separator.len() > 0,
        forall|i: int|
            0 <= i < part.len() ==> #[trigger] (part + separator).subrange(
                i,
                i + separator.len(),
            ) != separator,
    ensures
        text::parts_of(part + separator + rest, separator) == seq![part] + text::parts_of(
            rest,
            separator,
        ),
{
    let whole = part + separator + rest;
    let start = part + separator;
    assert(whole.subrange(part.len() as int, part.len() as int + separator.len()) =~= separator);
    assert forall|i: int| 0 <= i < part.len() implies #[trigger] whole.subrange(
        i,
        i + separator.len(),
    ) != separator by {
        assert(whole.subrange(i, i + separator.len()) =~= start.subrange(
            i,
            i + separator.len(),
        ));
    }
    lemma_first_match_at(whole, separator, part.len() as int);
    assert(whole.take(part.len() as int) =~= part);
    assert(whole.skip(part.len() as int + separator.len()) =~= rest);
}

/// Law: a text without the separator is one part.
pub proof fn law_a_text_without_separators_is_a_part(whole: Seq<char>, separator: Seq<char>)
    requires
        separator.len() > 0,
        forall|i: int|
            0 <= i <= whole.len() - separator.len() ==> #[trigger] whole.subrange(
                i,
                i + separator.len(),
            ) != separator,
    ensures
        text::parts_of(whole, separator) == seq![whole],
{
    text::lemma_first_match(whole, separator);
    if let Some(at) = text::first_match(whole, separator) {
        assert(whole.subrange(at, at + separator.len()) == separator);
    }
}

/// Law: texts are joined with the separator between each two of them, and nowhere else.
pub proof fn law_joining_puts_the_separator_between(
    list: Seq<Seq<char>>,
    last: Seq<char>,
    separator: Seq<char>,
)
    ensures
        text::joined(Seq::empty(), separator) == Seq::<char>::empty(),
        text::joined(seq![last], separator) == last,
        list.len() > 0 ==> text::joined(list.push(last), separator) == text::joined(
            list,
            separator,
        ) + separator + last,
        text::each_ended(Seq::empty(), separator) == Seq::<char>::empty(),
        text::each_ended(list.push(last), separator) == text::each_ended(list, separator) + last
            + separator,
{
    assert(list.push(last).drop_last() =~= list);
    assert(text::joined(seq![last], separator) == seq![last][0]);
}

/// Law: a number below ten is written as its digit, and ten times a number and a digit as that
/// number followed by the digit.
pub proof fn law_decimal_notation(tens: nat, ones: nat)
    requires
        ones < 10,
    ensures
        text::decimal(ones) == seq!["0123456789"@[ones as int]],
        tens > 0 ==> text::decimal(10 * tens + ones) == text::decimal(tens).push(
            "0123456789"@[ones as int],
        ),
{
    reveal_strlit("0123456789");
    assert(text::digit(ones) == "0123456789"@[ones as int]);
    if tens > 0 {
        let number = 10 * tens + ones;
        assert(number / 10 == tens && number % 10 == ones) by (nonlinear_arith)
            requires
                number == 10 * tens + ones,
                ones < 10,
        ;
    }
}

/// Law: a padded text is the text with spaces after it, up to the width where it is shorter.
pub proof fn law_padding_adds_spaces(text: Seq<char>, width: nat)
    ensures
        text::padded(text, width).len() == if text.len() < width {
            width
        } else {
            text.len()
        },
        text::padded(text, width).take(text.len() as int) == text,
        forall|i: int|
            text.len() <= i < width ==> #[trigger] text::padded(text, width)[i] == ' ',
{
    assert(text::padded(text, width).take(text.len() as int) =~= text);
}

} // verus!
