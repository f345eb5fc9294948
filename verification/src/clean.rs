//! The clean-up: which worktrees to remove, and whether to.

use vstd::prelude::*;
use vstd::pervasive::unreached;
use crate::git;
use crate::host;
use crate::host::{Flow, Halt, Reply, ReplyView, Request, RequestView, Session};
use crate::listing;
use crate::model::{ManagedView, ManagedWorktree};
use crate::path;
use crate::remove;
use crate::search;
use crate::select;
use crate::select::{Wording, WordingView};
use crate::setup;
use crate::text;

verus! {

/// The length of the longest name, in bytes.
pub open spec fn widest(worktrees: Seq<ManagedView>) -> nat
    decreases worktrees.len(),
{
    if worktrees.len() == 0 {
        0
    } else {
        let before = widest(worktrees.drop_last());
        let length = vstd::utf8::encode_utf8(worktrees.last().name).len();
        if before < length {
            length
        } else {
            before
        }
    }
}

/// The length of the longest name, in bytes.
fn name_width(worktrees: &[ManagedWorktree]) -> (width: usize)
    ensures
        width == widest(worktrees.deep_view()),
{
    let mut width: usize = 0;
    let mut index: usize = 0;
    let ghost all = worktrees.deep_view();
    while index < worktrees.len()
        invariant
            index <= worktrees.len(),
            all == worktrees.deep_view(),
            width == widest(all.take(index as int)),
        decreases worktrees.len() - index,
    {
        assert(all.take(index + 1).drop_last() =~= all.take(index as int));
        let length: usize = worktrees[index].name.as_str().as_bytes().len();
        if width < length {
            width = length;
        }
        index += 1;
    }
    assert(all.take(index as int) =~= all);
    width
}

/// What stands beside a worktree's name in its row.
pub open spec fn branch_label(branch: Option<Seq<char>>) -> Seq<char> {
    match branch {
        Some(branch) => branch,
        None => "(detached)"@,
    }
}

/// The row of a worktree: its name in a column, and its branch.
pub open spec fn row_of(worktree: ManagedView, width: nat) -> Seq<char> {
    text::padded(worktree.name, width) + "  "@ + branch_label(worktree.branch)
}

/// The rows of worktrees.
pub open spec fn rows_of(worktrees: Seq<ManagedView>) -> Seq<Seq<char>> {
    let width = widest(worktrees);
    worktrees.map_values(|worktree: ManagedView| row_of(worktree, width))
}

/// The rows of the worktrees, in their order.
pub fn worktree_rows(worktrees: &[ManagedWorktree]) -> (rows: Vec<String>)
    ensures
        rows.deep_view() == rows_of(worktrees.deep_view()),
{
    let width: usize = name_width(worktrees);
    let mut rows: Vec<String> = Vec::new();
    let mut index: usize = 0;
    let ghost all = rows_of(worktrees.deep_view());
    while index < worktrees.len()
        invariant
            index <= worktrees.len(),
            width == widest(worktrees.deep_view()),
            all == rows_of(worktrees.deep_view()),
            rows.deep_view() == all.take(index as int),
        decreases worktrees.len() - index,
    {
        let ghost before = rows.deep_view();
        let worktree: &ManagedWorktree = &worktrees[index];
        let branch: &str = match &worktree.branch {
            Some(branch) => branch.as_str(),
            None => "(detached)",
        };
        let row: String = text::pad(worktree.name.as_str(), width).concat("  ").concat(branch);
        rows.push(row);
        proof {
            assert(row@ == row_of(worktree.deep_view(), width as nat));
            assert(rows.deep_view() =~= before.push(row@));
            assert(all.take(index + 1) =~= before.push(row@));
        }
        index += 1;
    }
    assert(all.take(index as int) =~= all);
    rows
}

/// The test for one row.
pub open spec fn is_row(wanted: Seq<char>) -> spec_fn(Seq<char>) -> bool {
    |row: Seq<char>| row == wanted
}

/// The worktrees of rows: for each the first that has it.
pub open spec fn picked(worktrees: Seq<ManagedView>, lines: Seq<Seq<char>>) -> Result<
    Seq<ManagedView>,
    Seq<char>,
>
    decreases lines.len(),
{
    if lines.len() == 0 {
        Ok(Seq::empty())
    } else {
        match picked(worktrees, lines.drop_last()) {
            Err(message) => Err(message),
            Ok(list) => match search::first_where(rows_of(worktrees), is_row(lines.last())) {
                Some(at) => Ok(list.push(worktrees[at])),
                None => Err("fzf returned unknown worktree '"@ + lines.last() + "'"@),
            },
        }
    }
}

/// A failure for an earlier row is the failure for all.
proof fn lemma_picked_fails(worktrees: Seq<ManagedView>, lines: Seq<Seq<char>>, count: int)
    requires
        0 <= count <= lines.len(),
        picked(worktrees, lines.take(count)) is Err,
    ensures
        picked(worktrees, lines) == picked(worktrees, lines.take(count)),
    decreases lines.len(),
{
    if count == lines.len() {
        assert(lines.take(count) =~= lines);
    } else {
        assert(lines.drop_last().take(count) =~= lines.take(count));
        lemma_picked_fails(worktrees, lines.drop_last(), count);
    }
}

/// The position of the row.
fn position_of_row(rows: &Vec<String>, wanted: &str) -> (position: Option<usize>)
    ensures
        search::first_where(rows.deep_view(), is_row(wanted@)) == (match position {
            Some(at) => Some(at as int),
            None => None,
        }),
        position matches Some(at) ==> at < rows.len(),
{
    let ghost all = rows.deep_view();
    let ghost test = is_row(wanted@);
    let mut index: usize = 0;
    while index < rows.len()
        invariant
            index <= rows.len(),
            all == rows.deep_view(),
            test == is_row(wanted@),
            forall|i: int| 0 <= i < index ==> !test(#[trigger] all[i]),
        decreases rows.len() - index,
    {
        assert(all[index as int] == rows@[index as int]@);
        if text::same(rows[index].as_str(), wanted) {
            proof {
                search::lemma_first_where(all, test, index as int);
            }
            return Some(index);
        }
        index += 1;
    }
    proof {
        search::lemma_nowhere(all, test);
    }
    None
}

/// Whether a choice is what it should be.
pub open spec fn chosen(
    choice: Result<Vec<ManagedWorktree>, String>,
    meant: Result<Seq<ManagedView>, Seq<char>>,
) -> bool {
    match choice {
        Ok(list) => meant == Ok::<Seq<ManagedView>, Seq<char>>(list.deep_view()),
        Err(message) => meant == Err::<Seq<ManagedView>, Seq<char>>(message@),
    }
}

/// The worktrees whose rows `fzf` wrote.
pub fn pick_rows(worktrees: &[ManagedWorktree], written: &str) -> (choice: Result<
    Vec<ManagedWorktree>,
    String,
>)
    ensures
        chosen(choice, picked(worktrees.deep_view(), text::lines_of(written@))),
{
    let rows = worktree_rows(worktrees);
    let lines = text::lines(written);
    let ghost all = text::lines_of(written@);
    let mut list: Vec<ManagedWorktree> = Vec::new();
    let mut index: usize = 0;
    assert(list.deep_view() =~= Seq::empty());
    while index < lines.len()
        invariant
            index <= lines.len(),
            rows.deep_view() == rows_of(worktrees.deep_view()),
            all == text::lines_of(written@),
            lines.deep_view() == all,
            picked(worktrees.deep_view(), all.take(index as int)) == Ok::<
                Seq<ManagedView>,
                Seq<char>,
            >(list.deep_view()),
        decreases lines.len() - index,
    {
        let ghost before = list.deep_view();
        assert(all.take(index + 1).drop_last() =~= all.take(index as int));
        assert(all.take(index + 1).last() == lines@[index as int]@);
        match position_of_row(&rows, lines[index].as_str()) {
            Some(at) => {
                let worktree: ManagedWorktree = worktrees[at].clone();
                list.push(worktree);
                assert(list.deep_view() =~= before.push(worktrees.deep_view()[at as int]));
            },
            None => {
                proof {
                    lemma_picked_fails(worktrees.deep_view(), all, index + 1);
                }
                return Err(
                    "fzf returned unknown worktree '".to_owned().concat(
                        lines[index].as_str(),
                    ).concat("'"),
                );
            },
        }
        index += 1;
    }
    assert(all.take(index as int) =~= all);
    Ok(list)
}

/// The test for a worktree of a name.
pub open spec fn is_named(name: Seq<char>) -> spec_fn(ManagedView) -> bool {
    |worktree: ManagedView| worktree.name == name
}

/// The worktree of a name.
pub open spec fn named(worktrees: Seq<ManagedView>, name: Seq<char>) -> Result<
    ManagedView,
    Seq<char>,
> {
    match search::first_where(worktrees, is_named(name)) {
        Some(at) => Ok(worktrees[at]),
        None => Err("no worktree named '"@ + name + "' in .worktrees/"@),
    }
}

/// The worktree of the name.
pub fn find_worktree_by_name(worktrees: &[ManagedWorktree], name: &str) -> (found: Result<
    ManagedWorktree,
    String,
>)
    ensures
        match found {
            Ok(worktree) => named(worktrees.deep_view(), name@) == Ok::<ManagedView, Seq<char>>(
                worktree.deep_view(),
            ),
            Err(message) => named(worktrees.deep_view(), name@) == Err::<ManagedView, Seq<char>>(
                message@,
            ),
        },
        found matches Ok(worktree) ==> worktree.name@ == name@,
        found is Err <==> forall|i: int|
            0 <= i < worktrees.len() ==> (#[trigger] worktrees@[i]).name@ != name@,
{
    let ghost all = worktrees.deep_view();
    let ghost test = is_named(name@);
    let mut index: usize = 0;
    while index < worktrees.len()
        invariant
            index <= worktrees.len(),
            all == worktrees.deep_view(),
            test == is_named(name@),
            forall|i: int| 0 <= i < index ==> !test(#[trigger] all[i]),
        decreases worktrees.len() - index,
    {
        assert(all[index as int] == worktrees@[index as int].deep_view());
        if text::same(worktrees[index].name.as_str(), name) {
            proof {
                search::lemma_first_where(all, test, index as int);
            }
            assert(worktrees@[index as int].name@ == name@);
            return Ok(worktrees[index].clone());
        }
        index += 1;
    }
    proof {
        search::lemma_nowhere(all, test);
        assert forall|i: int| 0 <= i < worktrees.len() implies (
        #[trigger] worktrees@[i]).name@ != name@ by {
            assert(!test(all[i]));
        }
    }
    Err("no worktree named '".to_owned().concat(name).concat("' in .worktrees/"))
}

/// The worktrees of names.
pub open spec fn all_named(worktrees: Seq<ManagedView>, names: Seq<Seq<char>>) -> Result<
    Seq<ManagedView>,
    Seq<char>,
>
    decreases names.len(),
{
    if names.len() == 0 {
        Ok(Seq::empty())
    } else {
        match all_named(worktrees, names.drop_last()) {
            Err(message) => Err(message),
            Ok(list) => match named(worktrees, names.last()) {
                Ok(worktree) => Ok(list.push(worktree)),
                Err(message) => Err(message),
            },
        }
    }
}

/// A failure for an earlier name is the failure for all.
proof fn lemma_all_named_fails(worktrees: Seq<ManagedView>, names: Seq<Seq<char>>, count: int)
    requires
        0 <= count <= names.len(),
        all_named(worktrees, names.take(count)) is Err,
    ensures
        all_named(worktrees, names) == all_named(worktrees, names.take(count)),
    decreases names.len(),
{
    if count == names.len() {
        assert(names.take(count) =~= names);
    } else {
        assert(names.drop_last().take(count) =~= names.take(count));
        lemma_all_named_fails(worktrees, names.drop_last(), count);
    }
}

/// The worktrees of the names, which all have to be there.
pub fn find_worktrees_by_name(worktrees: &[ManagedWorktree], names: &[String]) -> (choice: Result<
    Vec<ManagedWorktree>,
    String,
>)
    ensures
        chosen(choice, all_named(worktrees.deep_view(), names.deep_view())),
{
    let ghost all = names.deep_view();
    let mut list: Vec<ManagedWorktree> = Vec::new();
    let mut index: usize = 0;
    assert(list.deep_view() =~= Seq::empty());
    while index < names.len()
        invariant
            index <= names.len(),
            all == names.deep_view(),
            all_named(worktrees.deep_view(), all.take(index as int)) == Ok::<
                Seq<ManagedView>,
                Seq<char>,
            >(list.deep_view()),
        decreases names.len() - index,
    {
        let ghost before = list.deep_view();
        assert(all.take(index + 1).drop_last() =~= all.take(index as int));
        assert(all.take(index + 1).last() == names@[index as int]@);
        match find_worktree_by_name(worktrees, names[index].as_str()) {
            Ok(worktree) => {
                list.push(worktree);
                assert(list.deep_view() =~= before.push(worktree.deep_view()));
            },
            Err(message) => {
                proof {
                    lemma_all_named_fails(worktrees.deep_view(), all, index + 1);
                }
                return Err(message);
            },
        }
        index += 1;
    }
    assert(all.take(index as int) =~= all);
    Ok(list)
}

/// The test for a worktree that is the same.
pub open spec fn is_alike(wanted: ManagedView) -> spec_fn(ManagedView) -> bool {
    |worktree: ManagedView| worktree.alike(wanted)
}

/// The position of a worktree in a list.
pub open spec fn worktree_position(
    worktrees: Seq<ManagedView>,
    wanted: Option<ManagedView>,
) -> Option<int> {
    match wanted {
        Some(wanted) => search::first_where(worktrees, is_alike(wanted)),
        None => None,
    }
}

/// The position of the worktree in the list.
fn position_of_worktree(worktrees: &[ManagedWorktree], sought: Option<&ManagedWorktree>) -> (
position: Option<usize>)
    ensures
        worktree_position(worktrees.deep_view(), sought.deep_view()) == (match position {
            Some(at) => Some(at as int),
            None => None,
        }),
        position matches Some(at) ==> at < worktrees.len(),
{
    let wanted: &ManagedWorktree = match sought {
        Some(wanted) => wanted,
        None => {
            return None;
        },
    };
    let ghost all = worktrees.deep_view();
    let ghost test = is_alike(wanted.deep_view());
    let mut index: usize = 0;
    while index < worktrees.len()
        invariant
            index <= worktrees.len(),
            all == worktrees.deep_view(),
            sought.deep_view() == Some(wanted.deep_view()),
            test == is_alike(wanted.deep_view()),
            forall|i: int| 0 <= i < index ==> !test(#[trigger] all[i]),
        decreases worktrees.len() - index,
    {
        assert(all[index as int] == worktrees@[index as int].deep_view());
        if worktrees[index].same(wanted) {
            proof {
                search::lemma_first_where(all, test, index as int);
            }
            return Some(index);
        }
        index += 1;
    }
    proof {
        search::lemma_nowhere(all, test);
    }
    None
}

/// The wording of the selection of worktrees.
pub open spec fn worktree_wording() -> WordingView {
    WordingView { kind: "worktree"@, subject: "worktree"@, items: "worktrees"@ }
}

/// The arguments for the selection of worktrees.
pub open spec fn worktree_selector_arguments(position: Option<int>) -> Seq<Seq<char>> {
    seq![
        "--height=40%"@,
        "--layout=reverse"@,
        "--border"@,
        "--multi"@,
        "--prompt=Remove worktrees: "@,
        "--header=Tab selects multiple"@,
        "--bind=change:first"@,
    ] + select::cursor_arguments(position)
}

/// The selection of worktrees with `fzf`, with the cursor on the current one. Nothing is selected
/// where the selection is cancelled.
pub open spec fn select_rows_flow(
    worktrees: Seq<ManagedView>,
    current: Option<ManagedView>,
    replies: Seq<ReplyView>,
) -> Flow<Seq<ManagedView>> {
    match select::selector_flow(
        worktree_wording(),
        worktree_selector_arguments(worktree_position(worktrees, current)),
        text::each_ended(rows_of(worktrees), "\n"@),
        replies,
    ) {
        (Err(halt), rest) => (Err(halt), rest),
        (Ok(None), rest) => (Ok(Seq::empty()), rest),
        (Ok(Some(written)), rest) => match picked(worktrees, text::lines_of(written)) {
            Ok(list) => (Ok(list), rest),
            Err(message) => host::failed(message, rest),
        },
    }
}

/// Lets the user select worktrees with `fzf`.
pub fn select_worktrees_with_fzf(
    worktrees: &[ManagedWorktree],
    current_worktree: Option<&ManagedWorktree>,
    session: &mut Session<'_>,
) -> (result: Result<Vec<ManagedWorktree>, Halt>)
    ensures
        (host::seen(result), final(session)@) == select_rows_flow(
            worktrees.deep_view(),
            current_worktree.deep_view(),
            old(session)@,
        ),
{
    let mut arguments: Vec<String> = vec![
        "--height=40%".to_owned(),
        "--layout=reverse".to_owned(),
        "--border".to_owned(),
        "--multi".to_owned(),
        "--prompt=Remove worktrees: ".to_owned(),
        "--header=Tab selects multiple".to_owned(),
        "--bind=change:first".to_owned(),
    ];
    let ghost position = worktree_position(worktrees.deep_view(), current_worktree.deep_view());
    assert(arguments.deep_view() + select::cursor_arguments(position)
        =~= worktree_selector_arguments(position));
    select::add_cursor(&mut arguments, position_of_worktree(worktrees, current_worktree));
    let wording = Wording { kind: "worktree", subject: "worktree", items: "worktrees" };
    let rows: String = text::line_block(&worktree_rows(worktrees));
    match select::run_selector(&wording, arguments, rows, session)? {
        None => {
            let none: Vec<ManagedWorktree> = Vec::new();
            assert(none.deep_view() =~= Seq::empty());
            Ok(none)
        },
        Some(written) => match pick_rows(worktrees, written.as_str()) {
            Ok(list) => Ok(list),
            Err(message) => Err(Halt::Failed(message)),
        },
    }
}

/// The test for a worktree that a directory lies in.
pub open spec fn is_around(directory: Seq<char>) -> spec_fn(ManagedView) -> bool {
    |worktree: ManagedView| path::within(directory, worktree.path)
}

/// The worktree that a directory lies in.
pub open spec fn around(worktrees: Seq<ManagedView>, directory: Seq<char>) -> Option<ManagedView> {
    match search::first_where(worktrees, is_around(directory)) {
        Some(at) => Some(worktrees[at]),
        None => None,
    }
}

/// The worktree that the directory lies in.
pub fn find_worktree_around<'a>(worktrees: &'a [ManagedWorktree], directory: &str) -> (found:
    Option<&'a ManagedWorktree>)
    ensures
        found.deep_view() == around(worktrees.deep_view(), directory@),
{
    let ghost all = worktrees.deep_view();
    let ghost test = is_around(directory@);
    let mut index: usize = 0;
    while index < worktrees.len()
        invariant
            index <= worktrees.len(),
            all == worktrees.deep_view(),
            test == is_around(directory@),
            forall|i: int| 0 <= i < index ==> !test(#[trigger] all[i]),
        decreases worktrees.len() - index,
    {
        assert(all[index as int] == worktrees@[index as int].deep_view());
        if path::lies_within(directory, worktrees[index].path.as_str()) {
            proof {
                search::lemma_first_where(all, test, index as int);
            }
            return Some(&worktrees[index]);
        }
        index += 1;
    }
    proof {
        search::lemma_nowhere(all, test);
    }
    None
}

/// The directory without symbolic links in its path, or as it is where that cannot be told.
pub open spec fn canonical_flow(directory: Seq<char>, replies: Seq<ReplyView>) -> Flow<Seq<char>> {
    match host::ask_flow(RequestView::Canonicalize { path: directory }, replies) {
        (Err(halt), rest) => (Err(halt), rest),
        (Ok(reply), rest) => (
            Ok(
                if reply is Failed {
                    directory
                } else {
                    reply->Text_0
                },
            ),
            rest,
        ),
    }
}

/// The directory without symbolic links in its path.
fn canonical(directory: &str, session: &mut Session<'_>) -> (result: Result<String, Halt>)
    ensures
        (host::seen(result), final(session)@) == canonical_flow(directory@, old(session)@),
{
    match session.ask(Request::Canonicalize { path: directory.to_owned() })? {
        Reply::Text(path) => Ok(path.clone()),
        _ => Ok(directory.to_owned()),
    }
}

/// The worktrees to remove: those of the names, or the user's selection where there are none.
pub open spec fn select_flow(
    directory: Seq<char>,
    worktrees: Seq<ManagedView>,
    names: Seq<Seq<char>>,
    replies: Seq<ReplyView>,
) -> Flow<Seq<ManagedView>> {
    if names.len() > 0 {
        match all_named(worktrees, names) {
            Ok(list) => (Ok(list), replies),
            Err(message) => host::failed(message, replies),
        }
    } else {
        match select::terminal_flow(replies) {
            (Err(halt), rest) => (Err(halt), rest),
            (Ok(terminal), rest) => if !terminal {
                host::failed(
                    "cannot select worktrees without a terminal; pass --name to choose one"@,
                    rest,
                )
            } else {
                match canonical_flow(directory, rest) {
                    (Err(halt), rest) => (Err(halt), rest),
                    (Ok(current), rest) => select_rows_flow(
                        worktrees,
                        around(worktrees, current),
                        rest,
                    ),
                }
            },
        }
    }
}

/// Selects the worktrees to remove.
pub fn select_worktrees_to_remove(
    cwd: &str,
    worktrees: &[ManagedWorktree],
    names: &[String],
    session: &mut Session<'_>,
) -> (result: Result<Vec<ManagedWorktree>, Halt>)
    ensures
        (host::seen(result), final(session)@) == select_flow(
            cwd@,
            worktrees.deep_view(),
            names.deep_view(),
            old(session)@,
        ),
{
    if names.len() > 0 {
        return match find_worktrees_by_name(worktrees, names) {
            Ok(list) => Ok(list),
            Err(message) => Err(Halt::Failed(message)),
        };
    }
    if !select::input_is_terminal(session)? {
        return Err(
            Halt::Failed(
                "cannot select worktrees without a terminal; pass --name to choose one".to_owned(),
            ),
        );
    }
    let current: String = canonical(cwd, session)?;
    select_worktrees_with_fzf(
        worktrees,
        find_worktree_around(worktrees, current.as_str()),
        session,
    )
}

/// Whether an answer confirms a removal.
pub open spec fn affirmative(answer: Seq<char>) -> bool {
    text::trimmed(answer) == "y"@ || text::trimmed(answer) == "Y"@
}

/// Whether the answer confirms the removal.
pub fn confirmation_is_affirmative(answer: &str) -> (confirmed: bool)
    ensures
        confirmed == affirmative(answer@),
        confirmed <==> text::trimmed(answer@) == seq!['y'] || text::trimmed(answer@) == seq!['Y'],
{
    proof {
        reveal_strlit("y");
        reveal_strlit("Y");
        assert("y"@ =~= seq!['y']);
        assert("Y"@ =~= seq!['Y']);
    }
    let word: &str = text::trim(answer);
    text::same(word, "y") || text::same(word, "Y")
}

/// Lines on the standard output with the paths of worktrees.
pub open spec fn paths_flow(worktrees: Seq<ManagedView>, replies: Seq<ReplyView>) -> Flow<()>
    decreases worktrees.len(),
{
    if worktrees.len() == 0 {
        (Ok(()), replies)
    } else {
        match remove::print_flow(worktrees[0].path, replies) {
            (Err(halt), rest) => (Err(halt), rest),
            (Ok(_), rest) => paths_flow(worktrees.drop_first(), rest),
        }
    }
}

/// Writes the paths of the worktrees to the standard output.
fn print_paths(worktrees: &[ManagedWorktree], session: &mut Session<'_>) -> (result: Result<
    (),
    Halt,
>)
    ensures
        (host::seen(result), final(session)@) == paths_flow(
            worktrees.deep_view(),
            old(session)@,
        ),
{
    let mut index: usize = 0;
    assert(worktrees.deep_view().skip(0) =~= worktrees.deep_view());
    while index < worktrees.len()
        invariant
            index <= worktrees.len(),
            paths_flow(worktrees.deep_view(), old(session)@) == paths_flow(
                worktrees.deep_view().skip(index as int),
                session@,
            ),
        decreases worktrees.len() - index,
    {
        let ghost left = worktrees.deep_view().skip(index as int);
        assert(left[0] == worktrees@[index as int].deep_view());
        assert(left.drop_first() =~= worktrees.deep_view().skip(index + 1));
        remove::print_line(worktrees[index].path.clone(), session)?;
        index += 1;
    }
    Ok(())
}

/// The question before a removal.
pub open spec fn removal_question(count: nat, force: bool) -> Seq<char> {
    let note = if force {
        " (force)"@
    } else {
        ""@
    };
    "Remove "@ + text::decimal(count) + " worktree(s)"@ + note + "? [y/N] "@
}

/// The confirmation of a removal, which is asked for at a terminal only.
pub open spec fn confirm_flow(
    worktrees: Seq<ManagedView>,
    force: bool,
    replies: Seq<ReplyView>,
) -> Flow<bool> {
    match select::terminal_flow(replies) {
        (Err(halt), rest) => (Err(halt), rest),
        (Ok(terminal), rest) => if !terminal {
            (Ok(true), rest)
        } else {
            match paths_flow(worktrees, rest) {
                (Err(halt), rest) => (Err(halt), rest),
                (Ok(_), rest) => match setup::do_flow(
                    RequestView::Prompt { question: removal_question(worktrees.len(), force) },
                    "failed to write confirmation prompt"@,
                    rest,
                ) {
                    (Err(halt), rest) => (Err(halt), rest),
                    (Ok(_), rest) => match host::ask_flow(RequestView::ReadLine, rest) {
                        (Err(halt), rest) => (Err(halt), rest),
                        (Ok(reply), rest) => if reply is Failed {
                            host::failed(
                                "failed to read confirmation: "@ + reply->Failed_0,
                                rest,
                            )
                        } else {
                            (Ok(affirmative(reply->Text_0)), rest)
                        },
                    },
                },
            }
        },
    }
}

/// Asks the user to confirm the removal, where there is a terminal.
pub fn confirm_removal(worktrees: &[ManagedWorktree], force: bool, session: &mut Session<'_>) -> (
result: Result<bool, Halt>)
    ensures
        (host::seen(result), final(session)@) == confirm_flow(
            worktrees.deep_view(),
            force,
            old(session)@,
        ),
{
    if !select::input_is_terminal(session)? {
        return Ok(true);
    }
    print_paths(worktrees, session)?;
    let note: &str = if force {
        " (force)"
    } else {
        ""
    };
    let question: String = "Remove ".to_owned().concat(
        text::decimal_text(worktrees.len() as u64).as_str(),
    ).concat(" worktree(s)").concat(note).concat("? [y/N] ");
    setup::perform(
        Request::Prompt { question },
        "failed to write confirmation prompt".to_owned(),
        session,
    )?;
    match session.ask(Request::ReadLine)? {
        Reply::Text(answer) => Ok(confirmation_is_affirmative(answer.as_str())),
        Reply::Failed(error) => Err(
            Halt::Failed("failed to read confirmation: ".to_owned().concat(error.as_str())),
        ),
        _ => unreached(),
    }
}

/// What a clean-up is about to remove: nothing where the user did not select or confirm it.
pub open spec fn approve_flow(
    directory: Seq<char>,
    worktrees: Seq<ManagedView>,
    names: Seq<Seq<char>>,
    force: bool,
    replies: Seq<ReplyView>,
) -> Flow<Seq<ManagedView>> {
    match select_flow(directory, worktrees, names, replies) {
        (Err(halt), rest) => (Err(halt), rest),
        (Ok(selected), rest) => if selected.len() == 0 {
            (Ok(selected), rest)
        } else {
            match confirm_flow(selected, force, rest) {
                (Err(halt), rest) => (Err(halt), rest),
                (Ok(confirmed), rest) => if confirmed {
                    (Ok(selected), rest)
                } else {
                    (Ok(Seq::empty()), rest)
                },
            }
        },
    }
}

/// Selects what to remove, and has it confirmed.
fn approve(
    cwd: &str,
    worktrees: &[ManagedWorktree],
    names: &[String],
    force: bool,
    session: &mut Session<'_>,
) -> (result: Result<Vec<ManagedWorktree>, Halt>)
    ensures
        (host::seen(result), final(session)@) == approve_flow(
            cwd@,
            worktrees.deep_view(),
            names.deep_view(),
            force,
            old(session)@,
        ),
{
    let selected = select_worktrees_to_remove(cwd, worktrees, names, session)?;
    assert(selected.deep_view().len() == selected.len());
    if selected.len() == 0 {
        return Ok(selected);
    }
    if confirm_removal(&selected, force, session)? {
        Ok(selected)
    } else {
        let none: Vec<ManagedWorktree> = Vec::new();
        assert(none.deep_view() =~= Seq::empty());
        Ok(none)
    }
}

/// A clean-up of the worktrees that stand in the directory for worktrees.
pub open spec fn clean_flow(
    directory: Seq<char>,
    names: Seq<Seq<char>>,
    force: bool,
    replies: Seq<ReplyView>,
) -> Flow<()> {
    match git::main_root_flow(directory, replies) {
        (Err(halt), rest) => (Err(halt), rest),
        (Ok(root), rest) => match listing::prune_flow(root, rest) {
            (Err(halt), rest) => (Err(halt), rest),
            (Ok(_), rest) => match listing::managed_flow(root, rest) {
                (Err(halt), rest) => (Err(halt), rest),
                (Ok(worktrees), rest) => if worktrees.len() == 0 && names.len() == 0 {
                    remove::print_flow("no worktrees to clean up"@, rest)
                } else {
                    match approve_flow(directory, worktrees, names, force, rest) {
                        (Err(halt), rest) => (Err(halt), rest),
                        (Ok(approved), rest) => remove::removals_flow(
                            root,
                            approved,
                            force,
                            rest,
                        ),
                    }
                },
            },
        },
    }
}

/// Removes worktrees that stand in the directory for worktrees.
pub fn run_clean(cwd: &str, names: &[String], force: bool, session: &mut Session<'_>) -> (result:
    Result<(), Halt>)
    ensures
        (host::seen(result), final(session)@) == clean_flow(
            cwd@,
            names.deep_view(),
            force,
            old(session)@,
        ),
{
    let root: String = git::main_worktree_root(cwd, session)?;
    listing::prune_worktree_metadata(root.as_str(), session)?;
    let worktrees = listing::list_managed_worktrees(root.as_str(), session)?;
    assert(worktrees.deep_view().len() == worktrees.len());
    if worktrees.len() == 0 && names.len() == 0 {
        return remove::print_line("no worktrees to clean up".to_owned(), session);
    }
    let approved = approve(cwd, &worktrees, names, force, session)?;
    remove::remove_selected_worktrees(root.as_str(), &approved, force, session)
}

} // verus!
