//! What holds of the exclude file.

use vstd::prelude::*;
use crate::create;
use crate::text;

verus! {

/// A newline after a text that does not end with one ends its last line and adds none.
proof fn lemma_lines_when_ended(contents: Seq<char>)
    requires
        contents.len() > 0,
        contents.last() != '\n',
    ensures
        text::lines_of(contents).len() > 0,
        text::lines_of(contents.push('\n')) == text::lines_of(contents).drop_last().push(
            text::without_return(text::lines_of(contents).last()),
        ),
    decreases contents.len(),
{
    let ended = contents.push('\n');
    let end = text::first_mark(contents, '\n');
    text::lemma_first_mark(contents, '\n');
    assert(ended =~= contents + seq!['\n']);
    text::lemma_first_mark_of_sum(contents, seq!['\n'], '\n');
    if end < contents.len() {
        let rest = contents.skip(end + 1);
        assert(rest.len() > 0 && rest.last() == contents.last());
        lemma_lines_when_ended(rest);
        assert(ended.take(end) =~= contents.take(end));
        assert(ended.skip(end + 1) =~= rest.push('\n'));
        assert(text::lines_of(ended) =~= text::lines_of(contents).drop_last().push(
            text::without_return(text::lines_of(contents).last()),
        ));
    } else {
        assert(ended.take(end) =~= contents);
        assert(ended.skip(end + 1) =~= Seq::empty());
        assert(text::lines_of(Seq::empty()) =~= Seq::empty());
        assert(text::lines_of(contents) =~= seq![contents]);
        assert(text::lines_of(ended) =~= seq![text::without_return(contents)]);
        assert(text::lines_of(contents).drop_last() =~= Seq::empty());
    }
}

/// The lines of a text, each without the white space around it.
pub open spec fn trimmed_lines(contents: Seq<char>) -> Seq<Seq<char>> {
    text::lines_of(contents).map_values(|line: Seq<char>| text::trimmed(line))
}

/// Law: a file that does not exclude worktrees yet keeps all that it says, and says one line
/// more, which is the pattern.
pub proof fn law_one_line_is_added(contents: Seq<char>)
    requires
        !create::excludes(contents),
    ensures
        trimmed_lines(create::excluding(contents)) == trimmed_lines(contents).push(
            create::WORKTREE_IGNORE_PATTERN@,
        ),
        contents.is_prefix_of(create::excluding(contents)),
{
    let pattern = create::WORKTREE_IGNORE_PATTERN@;
    reveal_strlit("/.worktrees/");
    reveal_strlit("\n");
    reveal_strlit("");
    let added = pattern + "\n"@;
    text::lemma_first_mark(pattern, '\n');
    text::lemma_first_mark_of_sum(pattern, "\n"@, '\n');
    assert(added.take(pattern.len() as int) =~= pattern);
    assert(added.skip(pattern.len() as int + 1) =~= Seq::empty());
    assert(text::lines_of(Seq::empty()) =~= Seq::empty());
    assert(text::lines_of(added) =~= seq![pattern]);
    assert(text::trimmed(pattern) == pattern);
    let updated = create::excluding(contents);
    if contents.len() == 0 || contents.last() == '\n' {
        assert(updated =~= contents + added);
        text::lemma_lines_of_sum(contents, added);
        assert(trimmed_lines(updated) =~= trimmed_lines(contents).push(pattern));
    } else {
        let ended = contents.push('\n');
        assert(updated =~= ended + added);
        text::lemma_lines_of_sum(ended, added);
        lemma_lines_when_ended(contents);
        let last = text::lines_of(contents).last();
        if text::without_return(last) != last {
            assert(last.drop_last().push('\r') =~= last);
            text::lemma_trimmed_of_push(last.drop_last(), '\r');
        }
        assert(trimmed_lines(ended) =~= trimmed_lines(contents));
        assert(trimmed_lines(updated) =~= trimmed_lines(ended).push(pattern));
    }
    assert(updated.take(contents.len() as int) =~= contents);
}

/// Law: the file excludes worktrees once it was updated.
pub proof fn law_update_excludes(contents: Seq<char>)
    ensures
        create::excludes(create::excluding(contents)),
{
    if !create::excludes(contents) {
        law_one_line_is_added(contents);
        let updated = create::excluding(contents);
        let last = text::lines_of(updated).len() - 1;
        assert(trimmed_lines(updated).last() == create::WORKTREE_IGNORE_PATTERN@);
        assert(trimmed_lines(updated)[last] == text::trimmed(text::lines_of(updated)[last]));
    }
}

/// Law: a second update changes nothing.
pub proof fn law_update_is_idempotent(contents: Seq<char>)
    ensures
        create::excluding(create::excluding(contents)) == create::excluding(contents),
{
    law_update_excludes(contents);
}

} // verus!
