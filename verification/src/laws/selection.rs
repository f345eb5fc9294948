//! What holds of a selection: that what the user sees stands for what they get.

use vstd::prelude::*;
use crate::clean;
use crate::cli;
use crate::host;
use crate::host::{HaltView, ReplyView};
use crate::model::{BaseView, ManagedView};
use crate::path;
use crate::search;
use crate::select;
use crate::text;

verus! {

/// Worktrees that differ in what is shown of them: in the column of their names, or in what
/// stands beside it.
pub open spec fn told_apart(worktrees: Seq<ManagedView>) -> bool {
    let width = clean::widest(worktrees);
    forall|i: int, j: int|
        0 <= i < j < worktrees.len() ==> text::padded((#[trigger] worktrees[i]).name, width)
            != text::padded((#[trigger] worktrees[j]).name, width) || clean::branch_label(
            worktrees[i].branch,
        ) != clean::branch_label(worktrees[j].branch)
}

/// A text has no more characters than bytes.
proof fn lemma_characters_and_bytes(text: Seq<char>)
    ensures
        text.len() <= vstd::utf8::encode_utf8(text).len(),
    decreases text.len(),
{
    if text.len() > 0 {
        lemma_characters_and_bytes(text.drop_first());
    }
}

/// The column of names is as wide as each name.
proof fn lemma_name_fits(worktrees: Seq<ManagedView>, at: int)
    requires
        0 <= at < worktrees.len(),
    ensures
        worktrees[at].name.len() <= clean::widest(worktrees),
    decreases worktrees.len(),
{
    if at < worktrees.len() - 1 {
        assert(worktrees.drop_last()[at] == worktrees[at]);
        lemma_name_fits(worktrees.drop_last(), at);
    } else {
        lemma_characters_and_bytes(worktrees[at].name);
    }
}

/// Law: worktrees with names of their own are told apart, where no name ends with a space.
pub proof fn law_names_tell_worktrees_apart(worktrees: Seq<ManagedView>)
    requires
        forall|i: int, j: int|
            0 <= i < j < worktrees.len() ==> (#[trigger] worktrees[i]).name != (
            #[trigger] worktrees[j]).name,
        forall|i: int|
            0 <= i < worktrees.len() && (#[trigger] worktrees[i]).name.len() > 0
                ==> worktrees[i].name.last() != ' ',
    ensures
        told_apart(worktrees),
{
    let width = clean::widest(worktrees);
    assert forall|i: int, j: int| 0 <= i < j < worktrees.len() implies text::padded(
        (#[trigger] worktrees[i]).name,
        width,
    ) != text::padded((#[trigger] worktrees[j]).name, width) by {
        let left = worktrees[i].name;
        let right = worktrees[j].name;
        lemma_name_fits(worktrees, i);
        lemma_name_fits(worktrees, j);
        let left_column = text::padded(left, width);
        let right_column = text::padded(right, width);
        if left_column == right_column {
            if left.len() < right.len() {
                assert(left_column[right.len() - 1] == ' ');
                assert(right_column[right.len() - 1] == right.last());
            } else if right.len() < left.len() {
                assert(right_column[left.len() - 1] == ' ');
                assert(left_column[left.len() - 1] == left.last());
            } else {
                assert(left =~= left_column.take(left.len() as int));
                assert(right =~= right_column.take(right.len() as int));
            }
        }
    }
}

/// Rows that are equal show the same in both columns.
proof fn lemma_equal_rows(worktrees: Seq<ManagedView>, left: int, right: int)
    requires
        0 <= left < worktrees.len(),
        0 <= right < worktrees.len(),
        clean::rows_of(worktrees)[left] == clean::rows_of(worktrees)[right],
    ensures
        text::padded(worktrees[left].name, clean::widest(worktrees)) == text::padded(
            worktrees[right].name,
            clean::widest(worktrees),
        ),
        clean::branch_label(worktrees[left].branch) == clean::branch_label(
            worktrees[right].branch,
        ),
{
    let width = clean::widest(worktrees);
    reveal_strlit("  ");
    lemma_name_fits(worktrees, left);
    lemma_name_fits(worktrees, right);
    let row = clean::rows_of(worktrees)[left];
    assert(row == clean::row_of(worktrees[left], width));
    assert(row == clean::row_of(worktrees[right], width));
    assert(text::padded(worktrees[left].name, width) =~= row.take(width as int));
    assert(text::padded(worktrees[right].name, width) =~= row.take(width as int));
    assert(clean::branch_label(worktrees[left].branch) =~= row.skip(width as int + 2));
    assert(clean::branch_label(worktrees[right].branch) =~= row.skip(width as int + 2));
}

/// Law: the rows of worktrees that are told apart stand for one worktree each.
pub proof fn law_a_row_finds_its_worktree(worktrees: Seq<ManagedView>, at: int)
    requires
        told_apart(worktrees),
        0 <= at < worktrees.len(),
    ensures
        search::first_where(
            clean::rows_of(worktrees),
            clean::is_row(clean::rows_of(worktrees)[at]),
        ) == Some(at),
{
    let rows = clean::rows_of(worktrees);
    let test = clean::is_row(rows[at]);
    assert forall|i: int| 0 <= i < at implies !test(#[trigger] rows[i]) by {
        if rows[i] == rows[at] {
            lemma_equal_rows(worktrees, i, at);
        }
    }
    search::lemma_first_where(rows, test, at);
}

/// Law: rows that the user selects, in whatever order, give the worktrees of these rows in that
/// order.
pub proof fn law_selected_rows_give_their_worktrees(
    worktrees: Seq<ManagedView>,
    selection: Seq<int>,
)
    requires
        told_apart(worktrees),
        forall|i: int| 0 <= i < selection.len() ==> 0 <= #[trigger] selection[i] < worktrees.len(),
    ensures
        clean::picked(
            worktrees,
            selection.map_values(|at: int| clean::rows_of(worktrees)[at]),
        ) == Ok::<Seq<ManagedView>, Seq<char>>(
            selection.map_values(|at: int| worktrees[at]),
        ),
    decreases selection.len(),
{
    let rows = clean::rows_of(worktrees);
    let lines = selection.map_values(|at: int| rows[at]);
    let list = selection.map_values(|at: int| worktrees[at]);
    if selection.len() > 0 {
        let before = selection.drop_last();
        law_selected_rows_give_their_worktrees(worktrees, before);
        assert(before.map_values(|at: int| rows[at]) =~= lines.drop_last());
        assert(before.map_values(|at: int| worktrees[at]) =~= list.drop_last());
        assert(selection.last() == selection[selection.len() - 1]);
        law_a_row_finds_its_worktree(worktrees, selection.last());
        assert(lines.last() == rows[selection.last()]);
        assert(list =~= list.drop_last().push(worktrees[selection.last()]));
    } else {
        assert(list =~= Seq::empty());
    }
}

/// Law: lines that were written one after the other are read as they were, where no line holds
/// a newline or ends with a carriage return.
pub proof fn law_written_lines_are_read(list: Seq<Seq<char>>)
    requires
        forall|i: int| 0 <= i < list.len() ==> !(#[trigger] list[i]).contains('\n'),
        forall|i: int|
            0 <= i < list.len() && (#[trigger] list[i]).len() > 0 ==> list[i].last() != '\r',
    ensures
        text::lines_of(text::each_ended(list, "\n"@)) == list,
    decreases list.len(),
{
    reveal_strlit("\n");
    let block = text::each_ended(list, "\n"@);
    if list.len() == 0 {
        assert(text::lines_of(block) =~= list);
    } else {
        let before = list.drop_last();
        let line = list.last();
        law_written_lines_are_read(before);
        let start = text::each_ended(before, "\n"@);
        assert(start.len() > 0 ==> start.last() == '\n');
        let added = line + "\n"@;
        assert(block =~= start + added);
        text::lemma_lines_of_sum(start, added);
        assert(line == list[list.len() - 1]);
        text::lemma_first_mark(line, '\n');
        if text::first_mark(line, '\n') < line.len() {
            assert(line.contains(line[text::first_mark(line, '\n')]));
        }
        text::lemma_first_mark_of_sum(line, "\n"@, '\n');
        assert(added.take(line.len() as int) =~= line);
        assert(added.skip(line.len() as int + 1) =~= Seq::empty());
        assert(text::lines_of(Seq::empty()) =~= Seq::empty());
        assert(text::lines_of(added) =~= seq![line]);
        assert(text::lines_of(block) =~= list);
    }
}

/// Law: what `fzf` writes for the rows that the user selects gives their worktrees, where no row
/// holds a newline or ends with a carriage return.
pub proof fn law_selection_gives_its_worktrees(worktrees: Seq<ManagedView>, selection: Seq<int>)
    requires
        told_apart(worktrees),
        forall|i: int| 0 <= i < selection.len() ==> 0 <= #[trigger] selection[i] < worktrees.len(),
        forall|i: int|
            0 <= i < worktrees.len() ==> {
                let row = #[trigger] clean::rows_of(worktrees)[i];
                !row.contains('\n') && row.last() != '\r'
            },
    ensures
        ({
            let lines = selection.map_values(|at: int| clean::rows_of(worktrees)[at]);
            clean::picked(worktrees, text::lines_of(text::each_ended(lines, "\n"@))) == Ok::<
                Seq<ManagedView>,
                Seq<char>,
            >(selection.map_values(|at: int| worktrees[at]))
        }),
{
    let rows = clean::rows_of(worktrees);
    let lines = selection.map_values(|at: int| rows[at]);
    assert forall|i: int| 0 <= i < lines.len() implies !(#[trigger] lines[i]).contains('\n')
        && lines[i].last() != '\r' by {
        assert(lines[i] == rows[selection[i]]);
    }
    law_written_lines_are_read(lines);
    law_selected_rows_give_their_worktrees(worktrees, selection);
}

/// Law: the cursor starts on the first worktree that the directory lies in.
pub proof fn law_the_cursor_starts_on_the_current_worktree(
    worktrees: Seq<ManagedView>,
    directory: Seq<char>,
    at: int,
)
    requires
        0 <= at < worktrees.len(),
        path::within(directory, worktrees[at].path),
        forall|i: int|
            0 <= i < at ==> !path::within(directory, (#[trigger] worktrees[i]).path),
    ensures
        clean::around(worktrees, directory) == Some(worktrees[at]),
        clean::worktree_position(worktrees, clean::around(worktrees, directory)) == Some(at),
{
    let test = clean::is_around(directory);
    assert forall|i: int| 0 <= i < at implies !test(#[trigger] worktrees[i]) by {}
    search::lemma_first_where(worktrees, test, at);
    let alike = clean::is_alike(worktrees[at]);
    assert forall|i: int| 0 <= i < at implies !alike(#[trigger] worktrees[i]) by {
        assert(!path::within(directory, worktrees[i].path));
    }
    search::lemma_first_where(worktrees, alike, at);
}

/// Bases that are shown under names of their own.
pub open spec fn labelled_apart(bases: Seq<BaseView>) -> bool {
    forall|i: int, j: int|
        0 <= i < j < bases.len() ==> (#[trigger] bases[i]).shown() != (
        #[trigger] bases[j]).shown()
}

/// Law: the line of a base that is shown under a name of its own, without white space around
/// it, gives that base.
pub proof fn law_a_label_gives_its_base(bases: Seq<BaseView>, at: int)
    requires
        labelled_apart(bases),
        0 <= at < bases.len(),
        text::trimmed(bases[at].shown()) == bases[at].shown(),
    ensures
        select::chosen_base(bases, bases[at].shown().push('\n')) == Ok::<BaseView, Seq<char>>(
            bases[at],
        ),
{
    let label = bases[at].shown();
    text::lemma_trimmed_of_push(label, '\n');
    let test = select::is_labelled(label);
    assert forall|i: int| 0 <= i < at implies !test(#[trigger] bases[i]) by {}
    search::lemma_first_where(bases, test, at);
}

/// Law: the cursor starts on the base that is checked out, wherever it stands in the list.
pub proof fn law_the_cursor_starts_on_the_default(bases: Seq<BaseView>, at: int)
    requires
        labelled_apart(bases),
        0 <= at < bases.len(),
    ensures
        select::base_position(bases, Some(bases[at])) == Some(at),
{
    let test = select::is_base(bases[at]);
    assert forall|i: int| 0 <= i < at implies !test(#[trigger] bases[i]) by {
        assert(bases[i].shown() != bases[at].shown());
    }
    search::lemma_first_where(bases, test, at);
}

/// Law: without a terminal the base is `origin/main`, and nobody is asked.
pub proof fn law_without_a_terminal_the_base_is_origin_main(
    directory: Seq<char>,
    replies: Seq<ReplyView>,
)
    requires
        replies.len() > 0,
        replies[0] == ReplyView::Answer(false),
    ensures
        select::prompt_base_flow(directory, replies) == (
            Ok::<Option<BaseView>, HaltView>(Some(BaseView::OriginMain)),
            replies.drop_first(),
        ),
{
}

/// Replies of an `fzf` that was started and that the user left without a selection.
pub open spec fn cancelled(replies: Seq<ReplyView>) -> bool {
    &&& replies.len() >= 3
    &&& replies[0] is Done
    &&& replies[1] is Done || replies[1] is Absent || replies[1] is Failed
    &&& replies[2] is Ended
    &&& replies[2]->Ended_0.code == Some(130i32)
}

/// Law: a selection that is cancelled selects nothing.
pub proof fn law_cancelled_selections_select_nothing(
    bases: Seq<BaseView>,
    default_base: Option<BaseView>,
    worktrees: Seq<ManagedView>,
    current: Option<ManagedView>,
    replies: Seq<ReplyView>,
)
    requires
        cancelled(replies),
    ensures
        bases.len() > 0 ==> select::select_base_flow(bases, default_base, replies) == (
            Ok::<Option<BaseView>, HaltView>(None),
            replies.skip(3),
        ),
        clean::select_rows_flow(worktrees, current, replies) == (
            Ok::<Seq<ManagedView>, HaltView>(Seq::empty()),
            replies.skip(3),
        ),
{
    assert(replies.drop_first()[0] == replies[1]);
    assert(replies.drop_first().drop_first()[0] == replies[2]);
    assert(replies.drop_first().drop_first().drop_first() =~= replies.skip(3));
}

/// Law: where the selection of the base is cancelled, the program ends there, without a failure.
/// No worktree is created.
pub proof fn law_a_cancelled_selection_creates_nothing(
    directory: Seq<char>,
    name: Option<Seq<char>>,
    file: Option<Seq<char>>,
    replies: Seq<ReplyView>,
)
    requires
        select::prompt_base_flow(directory, replies).0 == Ok::<Option<BaseView>, HaltView>(None),
    ensures
        cli::new_worktree_flow(directory, name, file, replies) == (
            Ok::<(), HaltView>(()),
            select::prompt_base_flow(directory, replies).1,
        ),
{
}

/// Law: a selection needs `fzf`, and fails where it is not there.
pub proof fn law_a_selection_needs_fzf(
    bases: Seq<BaseView>,
    default_base: Option<BaseView>,
    worktrees: Seq<ManagedView>,
    current: Option<ManagedView>,
    replies: Seq<ReplyView>,
)
    requires
        replies.len() > 0,
        replies[0] is Absent,
    ensures
        bases.len() > 0 ==> select::select_base_flow(bases, default_base, replies)
            == host::failed::<Option<BaseView>>(
            "fzf is required for interactive "@ + "branch"@
                + " selection; install fzf and try again"@,
            replies.drop_first(),
        ),
        clean::select_rows_flow(worktrees, current, replies) == host::failed::<Seq<ManagedView>>(
            "fzf is required for interactive "@ + "worktree"@
                + " selection; install fzf and try again"@,
            replies.drop_first(),
        ),
{
}

/// Law: where there is no branch to select, the selection fails and `fzf` is not started.
pub proof fn law_a_selection_needs_branches(
    default_base: Option<BaseView>,
    replies: Seq<ReplyView>,
)
    ensures
        select::select_base_flow(Seq::empty(), default_base, replies) == host::failed::<
            Option<BaseView>,
        >(
            "cannot select a base branch because the repository has no local branches"@,
            replies,
        ),
{
}

/// Law: where the choice of the base fails, the program fails with its message there. No worktree
/// is created.
pub proof fn law_a_failed_selection_creates_nothing(
    directory: Seq<char>,
    name: Option<Seq<char>>,
    file: Option<Seq<char>>,
    replies: Seq<ReplyView>,
    message: Seq<char>,
)
    requires
        select::prompt_base_flow(directory, replies).0 == Err::<Option<BaseView>, HaltView>(
            HaltView::Failed(message),
        ),
    ensures
        cli::new_worktree_flow(directory, name, file, replies) == host::failed::<()>(
            message,
            select::prompt_base_flow(directory, replies).1,
        ),
{
}

} // verus!
