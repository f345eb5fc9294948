//! What the records in Git's list of worktrees mean, and how bases are called.

use vstd::prelude::*;
use crate::listing;
use crate::model::{BackgroundView, BaseView, ManagedView, OutcomeView};
use crate::path;
use crate::path::ComponentView;
use crate::text;

verus! {

/// Law: the reference of a local branch is its name behind `refs/heads/`, and it is shown by its
/// name; `origin/main` is the remote branch of that name.
pub proof fn law_what_bases_are_called(branch: Seq<char>)
    ensures
        BaseView::LocalBranch(branch).reference_text() == "refs/heads/"@ + branch,
        BaseView::OriginMain.reference_text() == "refs/remotes/origin/main"@,
        BaseView::LocalBranch(branch).shown() == branch,
        BaseView::OriginMain.shown() == "origin/main"@,
{
}

/// Law: local branches with names of their own have references of their own, and none has that of
/// `origin/main`.
pub proof fn law_references_tell_bases_apart(left: BaseView, right: BaseView)
    ensures
        left.reference_text() == right.reference_text() ==> left == right,
{
    reveal_strlit("refs/heads/");
    reveal_strlit("refs/remotes/origin/main");
    let prefix = "refs/heads/"@;
    match (left, right) {
        (BaseView::LocalBranch(own), BaseView::LocalBranch(other)) => {
            assert((prefix + own).skip(prefix.len() as int) =~= own);
            assert((prefix + other).skip(prefix.len() as int) =~= other);
        },
        (BaseView::LocalBranch(own), BaseView::OriginMain) => {
            assert((prefix + own)[5] == 'h');
            assert("refs/remotes/origin/main"@[5] == 'r');
        },
        (BaseView::OriginMain, BaseView::LocalBranch(other)) => {
            assert((prefix + other)[5] == 'h');
            assert("refs/remotes/origin/main"@[5] == 'r');
        },
        _ => {},
    }
}

/// What follows a prefix is found in the first line that starts with it.
proof fn lemma_first_after(lines: Seq<Seq<char>>, prefix: Seq<char>, at: int, rest: Seq<char>)
    requires
        forall|i: int| 0 <= i < at ==> !prefix.is_prefix_of(#[trigger] lines[i]),
        0 <= at <= lines.len(),
        at < lines.len() ==> lines[at] == prefix + rest,
    ensures
        listing::first_after(lines, prefix) == if at < lines.len() {
            Some(rest)
        } else {
            None
        },
    decreases lines.len(),
{
    if lines.len() > 0 {
        if at == 0 {
            assert(prefix.is_prefix_of(prefix + rest));
            assert((prefix + rest).skip(prefix.len() as int) =~= rest);
        } else {
            let others = lines.drop_first();
            assert(!prefix.is_prefix_of(lines[0]));
            assert forall|i: int| 0 <= i < at - 1 implies !prefix.is_prefix_of(
                #[trigger] others[i],
            ) by {
                assert(others[i] == lines[i + 1]);
            }
            lemma_first_after(others, prefix, at - 1, rest);
        }
    }
}

/// Law: the path in a record is what follows `worktree ` in the first line that starts so; without
/// such a line there is none.
pub proof fn law_the_path_in_a_record(record: Seq<char>, at: int, path: Seq<char>)
    requires
        ({
            let lines = text::lines_of(record);
            &&& 0 <= at <= lines.len()
            &&& forall|i: int|
                0 <= i < at ==> !("worktree "@.is_prefix_of(#[trigger] lines[i]))
            &&& at < lines.len() ==> lines[at] == "worktree "@ + path
        }),
    ensures
        listing::record_path(record) == if at < text::lines_of(record).len() {
            Some(path)
        } else {
            None
        },
{
    lemma_first_after(text::lines_of(record), "worktree "@, at, path);
}

/// Law: the branch in a record is what follows `branch ` in the first line that starts so, without
/// `refs/heads/` before it; without such a line there is none.
pub proof fn law_the_branch_in_a_record(record: Seq<char>, at: int, branch: Seq<char>)
    requires
        ({
            let lines = text::lines_of(record);
            &&& 0 <= at <= lines.len()
            &&& forall|i: int| 0 <= i < at ==> !("branch "@.is_prefix_of(#[trigger] lines[i]))
            &&& at < lines.len() ==> lines[at] == "branch "@ + ("refs/heads/"@ + branch) || (
            lines[at] == "branch "@ + branch && !("refs/heads/"@.is_prefix_of(branch)))
        }),
    ensures
        listing::record_branch(record) == if at < text::lines_of(record).len() {
            Some(branch)
        } else {
            None
        },
{
    let lines = text::lines_of(record);
    let full = "refs/heads/"@ + branch;
    if at < lines.len() && lines[at] == "branch "@ + full {
        lemma_first_after(lines, "branch "@, at, full);
        assert("refs/heads/"@.is_prefix_of(full));
        assert(full.skip("refs/heads/"@.len() as int) =~= branch);
    } else {
        lemma_first_after(lines, "branch "@, at, branch);
    }
}

/// Law: a record is that of a managed worktree exactly where it has a path whose components are
/// those of the directory and a name, and then it is the worktree of that name, path and branch.
pub proof fn law_the_worktree_of_a_record(
    record: Seq<char>,
    directory: Seq<char>,
    found: Seq<char>,
    name: Seq<char>,
)
    ensures
        listing::record_path(record) is None ==> listing::managed_record(record, directory) is None,
        listing::record_path(record) == Some(found) && path::components_of(found)
            == path::components_of(directory).push(ComponentView::Normal(name))
            ==> listing::managed_record(record, directory) == Some(
            ManagedView { name, path: found, branch: listing::record_branch(record) },
        ),
        listing::managed_record(record, directory) matches Some(worktree) ==> {
            &&& listing::record_path(record) == Some(worktree.path)
            &&& path::components_of(worktree.path) == path::components_of(directory).push(
                ComponentView::Normal(worktree.name),
            )
            &&& worktree.branch == listing::record_branch(record)
        },
{
    crate::laws::paths::law_places(found, directory, name, Seq::empty());
    if let Some(worktree) = listing::managed_record(record, directory) {
        crate::laws::paths::law_places(worktree.path, directory, worktree.name, Seq::empty());
    }
}

/// Law: the managed worktrees of records are those of each record that has one, in the order of the
/// records.
pub proof fn law_the_worktrees_of_records(
    records: Seq<Seq<char>>,
    last: Seq<char>,
    directory: Seq<char>,
)
    ensures
        listing::managed_records(Seq::empty(), directory) == Seq::<ManagedView>::empty(),
        listing::managed_records(records.push(last), directory) == listing::managed_records(
            records,
            directory,
        ) + match listing::managed_record(last, directory) {
            Some(worktree) => seq![worktree],
            None => Seq::empty(),
        },
{
    assert(records.push(last).drop_last() =~= records);
}

/// Law: the managed worktrees of a listing are those of all its records but the first, in the
/// directory `.worktrees` of the first record's path; without such a path there are none.
pub proof fn law_the_worktrees_of_a_listing(listed: Seq<char>)
    ensures
        ({
            let records = text::parts_of(listed, "\n\n"@);
            match listing::record_path(records[0]) {
                Some(root) => listing::managed_in(listed) == listing::managed_records(
                    records.skip(1),
                    path::join_of(root, ".worktrees"@),
                ),
                None => listing::managed_in(listed) == Seq::<ManagedView>::empty(),
            }
        }),
{
    let records = text::parts_of(listed, "\n\n"@);
    assert(records.len() > 0);
    assert(records.drop_first() =~= records.skip(1));
}

/// Law: the worktree of a name stands in the directory `.worktrees` of the root, under its name.
pub proof fn law_where_worktrees_stand(root: Seq<char>, name: Seq<char>)
    ensures
        listing::worktree_path_of(root, name) == path::join_of(
            path::join_of(root, ".worktrees"@),
            name,
        ),
        listing::directory_of(root) == path::join_of(root, ".worktrees"@),
{
}

/// Law: worktrees are the same where their names and branches are and their paths have the same
/// components; so it is with what is left for a worker, and with outcomes.
pub proof fn law_when_values_are_the_same(
    left: ManagedView,
    right: ManagedView,
    own: BackgroundView,
    other: BackgroundView,
    mine: OutcomeView,
    theirs: OutcomeView,
)
    ensures
        left.alike(right) <==> left.name == right.name && left.branch == right.branch
            && path::components_of(left.path) == path::components_of(right.path),
        own.alike(other) <==> own.commands == other.commands && path::components_of(
            own.repository_root,
        ) == path::components_of(other.repository_root) && path::components_of(own.worktree_path)
            == path::components_of(other.worktree_path) && path::components_of(own.log_path)
            == path::components_of(other.log_path) && path::components_of(own.status_path)
            == path::components_of(other.status_path),
        mine.alike(theirs) <==> {
            &&& mine.name == theirs.name
            &&& path::components_of(mine.path) == path::components_of(theirs.path)
            &&& mine.config_missing == theirs.config_missing
            &&& mine.setup_commands_run == theirs.setup_commands_run
            &&& mine.background_setup is None <==> theirs.background_setup is None
            &&& mine.background_setup is Some && theirs.background_setup is Some ==> (
            mine.background_setup->0).alike(theirs.background_setup->0)
        },
{
}

/// Law: each line of Git's list of branches is a local branch of that name, in their order.
pub proof fn law_each_line_is_a_branch(listed: Seq<char>)
    ensures
        listing::bases_in(listed).len() == text::lines_of(listed).len(),
        forall|i: int|
            0 <= i < text::lines_of(listed).len() ==> #[trigger] listing::bases_in(listed)[i]
                == BaseView::LocalBranch(text::lines_of(listed)[i]),
{
}

} // verus!
