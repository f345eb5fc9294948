//! Operations on text, each stated over the characters of a string.

use vstd::prelude::*;

verus! {

/// `String::push` of the standard library: it appends one character.
pub assume_specification[ String::push ](string: &mut String, character: char)
    ensures
        final(string)@ == old(string)@.push(character),
;

/// The characters with the Unicode property `White_Space`.
pub open spec fn white_space(character: char) -> bool {
    let code = character as u32;
    ||| 0x9 <= code <= 0xd
    ||| code == 0x20
    ||| code == 0x85
    ||| code == 0xa0
    ||| code == 0x1680
    ||| 0x2000 <= code <= 0x200a
    ||| code == 0x2028
    ||| code == 0x2029
    ||| code == 0x202f
    ||| code == 0x205f
    ||| code == 0x3000
}

/// Whether a character is white space.
pub fn is_white_space(character: char) -> (answer: bool)
    ensures
        answer == white_space(character),
{
    let code: u32 = character as u32;
    (0x9 <= code && code <= 0xd) || code == 0x20 || code == 0x85 || code == 0xa0 || code == 0x1680
        || (0x2000 <= code && code <= 0x200a) || code == 0x2028 || code == 0x2029 || code == 0x202f
        || code == 0x205f || code == 0x3000
}

/// The ASCII letters and digits.
pub open spec fn alphanumeric(character: char) -> bool {
    ||| 'a' <= character <= 'z'
    ||| 'A' <= character <= 'Z'
    ||| '0' <= character <= '9'
}

/// Whether a character is an ASCII letter or digit.
pub fn is_alphanumeric(character: char) -> (answer: bool)
    ensures
        answer == alphanumeric(character),
{
    ('a' <= character && character <= 'z') || ('A' <= character && character <= 'Z') || ('0'
        <= character && character <= '9')
}

/// The characters of a text, one after the other.
pub fn characters(text: &str) -> (all: Vec<char>)
    ensures
        all@ == text@,
{
    let mut all: Vec<char> = Vec::new();
    for character in iter: text.chars()
        invariant
            all@ == text@.take(iter.index()),
            iter.seq() == text@,
    {
        all.push(character);
    }
    assert(text@.take(text@.len() as int) == text@);
    all
}

/// Whether two texts hold the same characters.
pub fn same(left: &str, right: &str) -> (answer: bool)
    ensures
        answer == (left@ == right@),
{
    left.to_owned() == right.to_owned()
}

/// A text without the white space at its start.
pub open spec fn trimmed_start(text: Seq<char>) -> Seq<char>
    decreases text.len(),
{
    if text.len() > 0 && white_space(text[0]) {
        trimmed_start(text.drop_first())
    } else {
        text
    }
}

/// A text without the white space at its end.
pub open spec fn trimmed_end(text: Seq<char>) -> Seq<char>
    decreases text.len(),
{
    if text.len() > 0 && white_space(text.last()) {
        trimmed_end(text.drop_last())
    } else {
        text
    }
}

/// A text without the white space around it.
pub open spec fn trimmed(text: Seq<char>) -> Seq<char> {
    trimmed_end(trimmed_start(text))
}

/// The text without the white space around it.
pub fn trim(text: &str) -> (rest: &str)
    ensures
        rest@ == trimmed(text@),
{
    let all = characters(text);
    let mut start: usize = 0;
    assert(all@.skip(0) == all@);
    while start < all.len() && is_white_space(all[start])
        invariant
            start <= all.len(),
            trimmed_start(all@) == trimmed_start(all@.skip(start as int)),
        decreases all.len() - start,
    {
        assert(all@.skip(start as int).drop_first() == all@.skip(start + 1));
        start += 1;
    }
    let ghost middle = all@.skip(start as int);
    let mut end: usize = all.len();
    assert(all@.subrange(start as int, end as int) == middle);
    while start < end && is_white_space(all[end - 1])
        invariant
            start <= end <= all.len(),
            trimmed_end(middle) == trimmed_end(all@.subrange(start as int, end as int)),
        decreases end,
    {
        assert(all@.subrange(start as int, end as int).drop_last() == all@.subrange(
            start as int,
            end - 1,
        ));
        end -= 1;
    }
    text.substring_char(start, end)
}

/// One more character at the end of a text is at the end of what is left of it, if anything is.
proof fn lemma_trimmed_start_of_push(text: Seq<char>, last: char)
    ensures
        trimmed_start(text.push(last)) == if trimmed_start(text).len() > 0 {
            trimmed_start(text).push(last)
        } else {
            trimmed_start(seq![last])
        },
    decreases text.len(),
{
    if text.len() == 0 {
        assert(text.push(last) =~= seq![last]);
    } else if white_space(text[0]) {
        lemma_trimmed_start_of_push(text.drop_first(), last);
        assert(text.push(last).drop_first() =~= text.drop_first().push(last));
    }
}

/// White space at the end of a text makes no difference to what is left of it.
pub proof fn lemma_trimmed_of_push(text: Seq<char>, last: char)
    requires
        white_space(last),
    ensures
        trimmed(text.push(last)) == trimmed(text),
{
    lemma_trimmed_start_of_push(text, last);
    let start = trimmed_start(text);
    if start.len() > 0 {
        assert(start.push(last).drop_last() =~= start);
    } else {
        assert(seq![last].drop_first() =~= Seq::<char>::empty());
        assert(trimmed_start(Seq::empty()) =~= Seq::<char>::empty());
        assert(trimmed_start(text.push(last)) =~= start);
    }
}

/// Whether `pattern` stands in `text` at the position `at`.
pub open spec fn matches_at(text: Seq<char>, pattern: Seq<char>, at: int) -> bool {
    &&& 0 <= at
    &&& at + pattern.len() <= text.len()
    &&& text.subrange(at, at + pattern.len()) == pattern
}

/// Whether `pattern` stands anywhere in `text`.
pub open spec fn occurs(text: Seq<char>, pattern: Seq<char>) -> bool {
    exists|at: int| matches_at(text, pattern, at)
}

/// Whether `pattern` stands in `all` at the position `at`.
fn stands_at(all: &Vec<char>, pattern: &Vec<char>, at: usize) -> (answer: bool)
    requires
        at <= all.len(),
    ensures
        answer == matches_at(all@, pattern@, at as int),
{
    if all.len() - at < pattern.len() {
        return false;
    }
    let mut index: usize = 0;
    while index < pattern.len()
        invariant
            index <= pattern.len(),
            at + pattern.len() <= all.len(),
            forall|i: int| 0 <= i < index ==> all@[at + i] == pattern@[i],
        decreases pattern.len() - index,
    {
        if all[at + index] != pattern[index] {
            assert(all@.subrange(at as int, at + pattern@.len())[index as int]
                != pattern@[index as int]);
            return false;
        }
        index += 1;
    }
    assert(all@.subrange(at as int, at + pattern@.len()) =~= pattern@);
    true
}

/// Whether the text holds the pattern.
pub fn contains(text: &str, pattern: &str) -> (answer: bool)
    ensures
        answer == occurs(text@, pattern@),
{
    let all = characters(text);
    let wanted = characters(pattern);
    let mut at: usize = 0;
    while at < all.len()
        invariant
            at <= all.len(),
            all@ == text@,
            wanted@ == pattern@,
            forall|i: int| 0 <= i < at ==> !matches_at(all@, wanted@, i),
        decreases all.len() - at,
    {
        if stands_at(&all, &wanted, at) {
            return true;
        }
        at += 1;
    }
    stands_at(&all, &wanted, at)
}

/// Whether the text starts with the prefix.
pub fn starts_with(text: &str, prefix: &str) -> (answer: bool)
    ensures
        answer == prefix@.is_prefix_of(text@),
{
    let all = characters(text);
    let wanted = characters(prefix);
    stands_at(&all, &wanted, 0)
}

/// Whether `text` ends with `suffix`.
pub open spec fn ends(text: Seq<char>, suffix: Seq<char>) -> bool {
    matches_at(text, suffix, text.len() - suffix.len())
}

/// Whether the text ends with the suffix.
pub fn ends_with(text: &str, suffix: &str) -> (answer: bool)
    ensures
        answer == ends(text@, suffix@),
{
    let all = characters(text);
    let wanted = characters(suffix);
    if wanted.len() > all.len() {
        return false;
    }
    stands_at(&all, &wanted, all.len() - wanted.len())
}

/// What follows `prefix` in `text`, where `text` starts with it.
pub open spec fn after_prefix(text: Seq<char>, prefix: Seq<char>) -> Option<Seq<char>> {
    if prefix.is_prefix_of(text) {
        Some(text.skip(prefix.len() as int))
    } else {
        None
    }
}

/// What follows the prefix, where the text starts with it.
pub fn strip_prefix<'a>(text: &'a str, prefix: &str) -> (rest: Option<&'a str>)
    ensures
        rest.deep_view() == after_prefix(text@, prefix@),
{
    if starts_with(text, prefix) {
        let length: usize = prefix.unicode_len();
        let total: usize = text.unicode_len();
        Some(text.substring_char(length, total))
    } else {
        None
    }
}

/// A text without the occurrences of `pattern` that it starts with.
pub open spec fn without_leading(text: Seq<char>, pattern: Seq<char>) -> Seq<char>
    decreases text.len(),
{
    if pattern.len() > 0 && pattern.is_prefix_of(text) {
        without_leading(text.skip(pattern.len() as int), pattern)
    } else {
        text
    }
}

/// The text without the occurrences of a pattern that it starts with.
pub fn trim_start_matches<'a>(text: &'a str, pattern: &str) -> (rest: &'a str)
    ensures
        rest@ == without_leading(text@, pattern@),
{
    if pattern.unicode_len() == 0 {
        return text;
    }
    let mut rest: &str = text;
    while starts_with(rest, pattern)
        invariant
            pattern@.len() > 0,
            without_leading(text@, pattern@) == without_leading(rest@, pattern@),
        decreases rest@.len(),
    {
        rest = rest.substring_char(pattern.unicode_len(), rest.unicode_len());
    }
    rest
}

/// The position of the first `mark` in a text, or the text's length where there is none.
pub open spec fn first_mark(text: Seq<char>, mark: char) -> int
    decreases text.len(),
{
    if text.len() == 0 || text[0] == mark {
        0
    } else {
        1 + first_mark(text.drop_first(), mark)
    }
}

/// The first mark is in the text or at its end, and no mark stands before it.
pub proof fn lemma_first_mark(text: Seq<char>, mark: char)
    ensures
        0 <= first_mark(text, mark) <= text.len(),
        first_mark(text, mark) < text.len() ==> text[first_mark(text, mark)] == mark,
        forall|i: int| 0 <= i < first_mark(text, mark) ==> text[i] != mark,
    decreases text.len(),
{
    if text.len() > 0 && text[0] != mark {
        let rest = text.drop_first();
        lemma_first_mark(rest, mark);
        assert forall|i: int| 0 <= i < first_mark(text, mark) implies text[i] != mark by {
            if i > 0 {
                assert(rest[i - 1] == text[i]);
            }
        }
    }
}

/// The first mark of two texts in a row is the first one of the left text, where it has one.
pub proof fn lemma_first_mark_of_sum(left: Seq<char>, right: Seq<char>, mark: char)
    ensures
        first_mark(left + right, mark) == if first_mark(left, mark) < left.len() {
            first_mark(left, mark)
        } else {
            left.len() + first_mark(right, mark)
        },
    decreases left.len(),
{
    lemma_first_mark(left, mark);
    if left.len() == 0 {
        assert(left + right =~= right);
    } else if left[0] != mark {
        lemma_first_mark_of_sum(left.drop_first(), right, mark);
        assert((left + right).drop_first() =~= left.drop_first() + right);
    }
}

/// The position of the first mark at or after `from`, or the end where there is none.
pub fn find_mark(all: &Vec<char>, mark: char, from: usize) -> (at: usize)
    requires
        from <= all.len(),
    ensures
        from <= at <= all.len(),
        at - from == first_mark(all@.skip(from as int), mark),
{
    let mut at: usize = from;
    while at < all.len() && all[at] != mark
        invariant
            from <= at <= all.len(),
            first_mark(all@.skip(from as int), mark) == at - from + first_mark(
                all@.skip(at as int),
                mark,
            ),
        decreases all.len() - at,
    {
        assert(all@.skip(at as int).drop_first() == all@.skip(at + 1));
        at += 1;
    }
    at
}

/// A line without the carriage return that belongs to its ending.
pub open spec fn without_return(line: Seq<char>) -> Seq<char> {
    if line.len() > 0 && line.last() == '\r' {
        line.drop_last()
    } else {
        line
    }
}

/// The lines of a text. A line ends at `\n` or `\r\n`, which is not part of it; the ending of
/// the last line is optional.
pub open spec fn lines_of(text: Seq<char>) -> Seq<Seq<char>>
    decreases text.len(),
{
    let end = first_mark(text, '\n');
    if text.len() == 0 {
        Seq::empty()
    } else if 0 <= end < text.len() {
        seq![without_return(text.take(end))] + lines_of(text.skip(end + 1))
    } else {
        seq![text]
    }
}

/// The lines of a text.
pub fn lines(text: &str) -> (list: Vec<String>)
    ensures
        list.deep_view() == lines_of(text@),
{
    let all = characters(text);
    let mut list: Vec<String> = Vec::new();
    let mut from: usize = 0;
    assert(all@.skip(0) == all@);
    assert(list.deep_view() + lines_of(all@) =~= lines_of(all@));
    while from < all.len()
        invariant
            from <= all.len(),
            all@ == text@,
            lines_of(text@) == list.deep_view() + lines_of(all@.skip(from as int)),
        decreases all.len() - from,
    {
        let ghost rest = all@.skip(from as int);
        let ghost done = list.deep_view();
        proof {
            lemma_first_mark(rest, '\n');
        }
        let at: usize = find_mark(&all, '\n', from);
        if at == all.len() {
            assert(rest == text@.subrange(from as int, at as int));
            list.push(text.substring_char(from, at).to_owned());
            assert(list.deep_view() =~= done + seq![rest]);
            return list;
        }
        let end: usize = if from < at && all[at - 1] == '\r' {
            at - 1
        } else {
            at
        };
        list.push(text.substring_char(from, end).to_owned());
        proof {
            assert(rest.take(at - from) =~= all@.subrange(from as int, at as int));
            assert(without_return(rest.take(at - from)) =~= all@.subrange(
                from as int,
                end as int,
            ));
            assert(rest.skip(at - from + 1) =~= all@.skip(at + 1));
            assert(list.deep_view() =~= done + seq![without_return(rest.take(at - from))]);
            assert(lines_of(text@) =~= list.deep_view() + lines_of(all@.skip(at + 1)));
        }
        from = at + 1;
    }
    assert(lines_of(text@) =~= list.deep_view());
    list
}

/// The lines of two texts in a row, where the first ends with a newline, are those of the one
/// and of the other.
pub proof fn lemma_lines_of_sum(left: Seq<char>, right: Seq<char>)
    requires
        left.len() == 0 || left.last() == '\n',
    ensures
        lines_of(left + right) == lines_of(left) + lines_of(right),
    decreases left.len(),
{
    if left.len() == 0 {
        assert(left + right =~= right);
        assert(lines_of(left) + lines_of(right) =~= lines_of(right));
    } else {
        let end = first_mark(left, '\n');
        lemma_first_mark(left, '\n');
        lemma_first_mark_of_sum(left, right, '\n');
        assert(end < left.len());
        let rest = left.skip(end + 1);
        assert(rest.len() > 0 ==> rest.last() == left.last());
        lemma_lines_of_sum(rest, right);
        assert((left + right).take(end) =~= left.take(end));
        assert((left + right).skip(end + 1) =~= rest + right);
        assert(lines_of(left + right) =~= lines_of(left) + lines_of(right));
    }
}

/// The position of the first `pattern` in a text.
pub open spec fn first_match(text: Seq<char>, pattern: Seq<char>) -> Option<int>
    decreases text.len(),
{
    if pattern.is_prefix_of(text) {
        Some(0)
    } else if text.len() == 0 {
        None
    } else {
        match first_match(text.drop_first(), pattern) {
            Some(at) => Some(at + 1),
            None => None,
        }
    }
}

/// The first match lies in the text.
pub proof fn lemma_first_match(text: Seq<char>, pattern: Seq<char>)
    ensures
        first_match(text, pattern) matches Some(at) ==> matches_at(text, pattern, at),
    decreases text.len(),
{
    if pattern.is_prefix_of(text) {
        assert(text.subrange(0, pattern.len() as int) =~= pattern);
    } else if text.len() > 0 {
        lemma_first_match(text.drop_first(), pattern);
        if let Some(at) = first_match(text.drop_first(), pattern) {
            assert(text.subrange(at + 1, at + 1 + pattern.len()) =~= text.drop_first().subrange(
                at,
                at + pattern.len(),
            ));
        }
    }
}

/// The parts of a text between the occurrences of a separator, taken from the left.
pub open spec fn parts_of(text: Seq<char>, separator: Seq<char>) -> Seq<Seq<char>>
    decreases text.len(),
{
    proof {
        lemma_first_match(text, separator);
    }
    match first_match(text, separator) {
        Some(at) => if separator.len() > 0 {
            seq![text.take(at)] + parts_of(text.skip(at + separator.len()), separator)
        } else {
            seq![text]
        },
        None => seq![text],
    }
}

/// The position of the first pattern at or after `from`.
fn find_pattern(all: &Vec<char>, pattern: &Vec<char>, from: usize) -> (found: Option<usize>)
    requires
        from <= all.len(),
    ensures
        match (found, first_match(all@.skip(from as int), pattern@)) {
            (Some(at), Some(offset)) => {
                &&& from <= at
                &&& at == from + offset
                &&& at + pattern@.len() <= all.len()
            },
            (None, None) => true,
            _ => false,
        },
{
    let mut at: usize = from;
    while at < all.len()
        invariant
            from <= at <= all.len(),
            first_match(all@.skip(from as int), pattern@) == (match first_match(
                all@.skip(at as int),
                pattern@,
            ) {
                Some(offset) => Some(offset + at - from),
                None => None,
            }),
        decreases all.len() - at,
    {
        let ghost rest = all@.skip(at as int);
        if stands_at(all, pattern, at) {
            assert(all@.subrange(at as int, at + pattern@.len()) =~= rest.take(
                pattern@.len() as int,
            ));
            return Some(at);
        }
        proof {
            if pattern@.is_prefix_of(rest) {
                assert(all@.subrange(at as int, at + pattern@.len()) =~= pattern@);
            }
            assert(rest.drop_first() =~= all@.skip(at + 1));
        }
        at += 1;
    }
    if pattern.len() == 0 {
        assert(pattern@.is_prefix_of(all@.skip(at as int)));
        Some(at)
    } else {
        None
    }
}

/// The parts of a text between the occurrences of a separator.
pub fn split(text: &str, separator: &str) -> (list: Vec<String>)
    requires
        separator@.len() > 0,
    ensures
        list.deep_view() == parts_of(text@, separator@),
{
    let all = characters(text);
    let pattern = characters(separator);
    let mut list: Vec<String> = Vec::new();
    let mut from: usize = 0;
    assert(all@.skip(0) == all@);
    assert(list.deep_view() + parts_of(all@, pattern@) =~= parts_of(all@, pattern@));
    loop
        invariant
            from <= all.len(),
            all@ == text@,
            pattern@ == separator@,
            pattern@.len() > 0,
            parts_of(text@, separator@) == list.deep_view() + parts_of(
                all@.skip(from as int),
                pattern@,
            ),
        decreases all.len() - from,
    {
        let ghost rest = all@.skip(from as int);
        let ghost done = list.deep_view();
        match find_pattern(&all, &pattern, from) {
            Some(at) => {
                list.push(text.substring_char(from, at).to_owned());
                proof {
                    assert(rest.take(at - from) =~= all@.subrange(from as int, at as int));
                    assert(rest.skip(at - from + pattern@.len()) =~= all@.skip(
                        at + pattern@.len(),
                    ));
                    assert(list.deep_view() =~= done + seq![rest.take(at - from)]);
                    assert(parts_of(text@, separator@) =~= list.deep_view() + parts_of(
                        all@.skip(at + pattern@.len()),
                        pattern@,
                    ));
                }
                from = at + pattern.len();
            },
            None => {
                assert(rest =~= all@.subrange(from as int, all@.len() as int));
                list.push(text.substring_char(from, all.len()).to_owned());
                assert(list.deep_view() =~= done + seq![rest]);
                return list;
            },
        }
    }
}

/// The texts of a list with `separator` between each two of them.
pub open spec fn joined(list: Seq<Seq<char>>, separator: Seq<char>) -> Seq<char>
    decreases list.len(),
{
    if list.len() == 0 {
        Seq::empty()
    } else if list.len() == 1 {
        list[0]
    } else {
        joined(list.drop_last(), separator) + separator + list.last()
    }
}

/// The texts of a list with a separator between each two of them.
pub fn join(list: &[String], separator: &str) -> (text: String)
    ensures
        text@ == joined(list.deep_view(), separator@),
{
    let mut text: String = String::new();
    let mut index: usize = 0;
    while index < list.len()
        invariant
            index <= list.len(),
            text@ == joined(list.deep_view().take(index as int), separator@),
        decreases list.len() - index,
    {
        assert(list.deep_view().take(index + 1).drop_last() =~= list.deep_view().take(
            index as int,
        ));
        if index > 0 {
            text.append(separator);
        }
        text.append(list[index].as_str());
        assert(text@ =~= joined(list.deep_view().take(index + 1), separator@));
        index += 1;
    }
    assert(list.deep_view().take(index as int) =~= list.deep_view());
    text
}

/// The texts of a list, each followed by `ending`.
pub open spec fn each_ended(list: Seq<Seq<char>>, ending: Seq<char>) -> Seq<char>
    decreases list.len(),
{
    if list.len() == 0 {
        Seq::empty()
    } else {
        each_ended(list.drop_last(), ending) + list.last() + ending
    }
}

/// The texts of a list as lines, each ended by a newline.
pub fn line_block(list: &[String]) -> (text: String)
    ensures
        text@ == each_ended(list.deep_view(), "\n"@),
{
    let mut text: String = String::new();
    let mut index: usize = 0;
    while index < list.len()
        invariant
            index <= list.len(),
            text@ == each_ended(list.deep_view().take(index as int), "\n"@),
        decreases list.len() - index,
    {
        assert(list.deep_view().take(index + 1).drop_last() =~= list.deep_view().take(
            index as int,
        ));
        text.append(list[index].as_str());
        text.append("\n");
        index += 1;
    }
    assert(list.deep_view().take(index as int) =~= list.deep_view());
    text
}

/// The decimal digit of a number below ten.
pub open spec fn digit(value: nat) -> char {
    (('0' as nat) + value) as char
}

/// A number in decimal notation.
pub open spec fn decimal(number: nat) -> Seq<char>
    decreases number,
{
    if number < 10 {
        seq![digit(number)]
    } else {
        decimal(number / 10).push(digit(number % 10))
    }
}

/// The number in decimal notation.
pub fn decimal_text(number: u64) -> (text: String)
    ensures
        text@ == decimal(number as nat),
    decreases number,
{
    let last: char = (0x30u8 + (number % 10) as u8) as char;
    if number < 10 {
        let mut text: String = String::new();
        text.push(last);
        assert(text@ =~= decimal(number as nat));
        text
    } else {
        let mut text: String = decimal_text(number / 10);
        text.push(last);
        text
    }
}

/// A text followed by as many spaces as it is short of `width` characters.
pub open spec fn padded(text: Seq<char>, width: nat) -> Seq<char> {
    if text.len() < width {
        text + Seq::new((width - text.len()) as nat, |i: int| ' ')
    } else {
        text
    }
}

/// The text followed by as many spaces as it is short of the width.
pub fn pad(text: &str, width: usize) -> (row: String)
    ensures
        row@ == padded(text@, width as nat),
{
    let mut row: String = text.to_owned();
    let mut length: usize = text.unicode_len();
    while length < width
        invariant
            text@.len() <= length,
            length <= width || length == text@.len(),
            row@ =~= text@ + Seq::new((length - text@.len()) as nat, |i: int| ' '),
        decreases width - length,
    {
        row.push(' ');
        length += 1;
    }
    assert(row@ =~= padded(text@, width as nat));
    row
}

/// A copy of a list of texts.
pub fn copy_all(list: &[String]) -> (copy: Vec<String>)
    ensures
        copy.deep_view() == list.deep_view(),
{
    let mut copy: Vec<String> = Vec::new();
    let mut index: usize = 0;
    while index < list.len()
        invariant
            index <= list.len(),
            copy.deep_view() == list.deep_view().take(index as int),
        decreases list.len() - index,
    {
        let ghost done = copy.deep_view();
        copy.push(list[index].clone());
        assert(copy.deep_view() =~= done.push(list@[index as int]@));
        assert(list.deep_view().take(index + 1) =~= done.push(list@[index as int]@));
        index += 1;
    }
    assert(list.deep_view().take(index as int) =~= list.deep_view());
    copy
}

/// Whether two lists hold the same texts in the same order.
pub fn same_lists(left: &[String], right: &[String]) -> (answer: bool)
    ensures
        answer == (left.deep_view() == right.deep_view()),
{
    if left.len() != right.len() {
        assert(left.deep_view().len() != right.deep_view().len());
        return false;
    }
    let mut index: usize = 0;
    while index < left.len()
        invariant
            index <= left.len(),
            left.len() == right.len(),
            forall|i: int|
                0 <= i < index ==> #[trigger] left.deep_view()[i] == right.deep_view()[i],
        decreases left.len() - index,
    {
        assert(left.deep_view()[index as int] == left@[index as int]@);
        assert(right.deep_view()[index as int] == right@[index as int]@);
        if !same(left[index].as_str(), right[index].as_str()) {
            return false;
        }
        index += 1;
    }
    assert(left.deep_view() =~= right.deep_view());
    true
}

} // verus!
