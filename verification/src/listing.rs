//! The branches and the worktrees of a repository, as Git lists them.

use vstd::prelude::*;
use crate::git;
use crate::host;
use crate::host::{Flow, Halt, ReplyView, Session};
use crate::model::{BaseView, ManagedView, ManagedWorktree, WorktreeBase};
use crate::path;
use crate::text;

verus! {

/// The directory for worktrees, in the main work tree.
pub const WORKTREE_DIRECTORY_NAME: &'static str = ".worktrees";

/// The directory of a repository's worktrees.
pub open spec fn directory_of(root: Seq<char>) -> Seq<char> {
    path::join_of(root, WORKTREE_DIRECTORY_NAME@)
}

/// The name of the directory for worktrees is one component of a path.
pub proof fn lemma_directory_name_is_plain()
    ensures
        path::plain(WORKTREE_DIRECTORY_NAME@),
{
    let name = WORKTREE_DIRECTORY_NAME@;
    reveal_strlit(".worktrees");
    assert(name.len() == 10);
    assert(name != seq!['.']);
    assert(name != seq!['.', '.']);
    assert(!name.contains('/'));
}

/// Where a worktree of a repository stands.
pub open spec fn worktree_path_of(root: Seq<char>, name: Seq<char>) -> Seq<char> {
    path::join_of(directory_of(root), name)
}

/// Where the worktree of the name stands.
pub fn derive_worktree_path(repo_root: &str, worktree_name: &str) -> (found: String)
    ensures
        found@ == worktree_path_of(repo_root@, worktree_name@),
{
    let directory: String = path::join(repo_root, WORKTREE_DIRECTORY_NAME);
    path::join(directory.as_str(), worktree_name)
}

/// What follows `prefix` in the first of the lines that starts with it.
pub open spec fn first_after(lines: Seq<Seq<char>>, prefix: Seq<char>) -> Option<Seq<char>>
    decreases lines.len(),
{
    if lines.len() == 0 {
        None
    } else {
        match text::after_prefix(lines[0], prefix) {
            Some(rest) => Some(rest),
            None => first_after(lines.drop_first(), prefix),
        }
    }
}

/// What follows the prefix in the first line that starts with it.
fn find_after(lines: &Vec<String>, prefix: &str) -> (found: Option<String>)
    ensures
        found.deep_view() == first_after(lines.deep_view(), prefix@),
{
    let mut index: usize = 0;
    assert(lines.deep_view().skip(0) =~= lines.deep_view());
    while index < lines.len()
        invariant
            index <= lines.len(),
            first_after(lines.deep_view(), prefix@) == first_after(
                lines.deep_view().skip(index as int),
                prefix@,
            ),
        decreases lines.len() - index,
    {
        let ghost left = lines.deep_view().skip(index as int);
        assert(left[0] == lines@[index as int]@);
        assert(left.drop_first() =~= lines.deep_view().skip(index + 1));
        if let Some(rest) = text::strip_prefix(lines[index].as_str(), prefix) {
            return Some(rest.to_owned());
        }
        index += 1;
    }
    None
}

/// The path in a record of Git's list of worktrees.
pub open spec fn record_path(record: Seq<char>) -> Option<Seq<char>> {
    first_after(text::lines_of(record), "worktree "@)
}

/// The branch in a record of Git's list of worktrees: a local branch by its short name.
pub open spec fn record_branch(record: Seq<char>) -> Option<Seq<char>> {
    match first_after(text::lines_of(record), "branch "@) {
        Some(reference) => match text::after_prefix(reference, "refs/heads/"@) {
            Some(branch) => Some(branch),
            None => Some(reference),
        },
        None => None,
    }
}

/// The worktree of a record, where it stands directly in `directory`.
pub open spec fn managed_record(record: Seq<char>, directory: Seq<char>) -> Option<ManagedView> {
    match record_path(record) {
        Some(path) => match path::child_name(path, directory) {
            Some(name) => Some(ManagedView { name, path, branch: record_branch(record) }),
            None => None,
        },
        None => None,
    }
}

/// The worktrees of those records that stand directly in `directory`, in their order.
pub open spec fn managed_records(records: Seq<Seq<char>>, directory: Seq<char>) -> Seq<ManagedView>
    decreases records.len(),
{
    if records.len() == 0 {
        Seq::empty()
    } else {
        let before = managed_records(records.drop_last(), directory);
        match managed_record(records.last(), directory) {
            Some(worktree) => before.push(worktree),
            None => before,
        }
    }
}

/// The worktrees in Git's list that stand in the directory for worktrees. The first record is
/// that of the main work tree: it tells where that directory is, and is not among them.
pub open spec fn managed_in(listing: Seq<char>) -> Seq<ManagedView> {
    let records = text::parts_of(listing, "\n\n"@);
    match record_path(records[0]) {
        Some(root) => managed_records(records.drop_first(), directory_of(root)),
        None => Seq::empty(),
    }
}

/// The path in a record of Git's list of worktrees.
pub fn worktree_record_path(record: &str) -> (found: Option<String>)
    ensures
        found.deep_view() == record_path(record@),
{
    find_after(&text::lines(record), "worktree ")
}

/// The worktree of the record, where it stands directly in the directory.
pub fn managed_worktree_from_record(record: &str, worktrees_directory: &str) -> (found: Option<
    ManagedWorktree,
>)
    ensures
        found.deep_view() == managed_record(record@, worktrees_directory@),
{
    let path: String = match worktree_record_path(record) {
        Some(path) => path,
        None => {
            return None;
        },
    };
    let name: String = match path::name_in(path.as_str(), worktrees_directory) {
        Some(name) => name,
        None => {
            return None;
        },
    };
    let branch: Option<String> = match find_after(&text::lines(record), "branch ") {
        Some(reference) => match text::strip_prefix(reference.as_str(), "refs/heads/") {
            Some(branch) => Some(branch.to_owned()),
            None => Some(reference),
        },
        None => None,
    };
    Some(ManagedWorktree { name, path, branch })
}

/// The worktrees in Git's list that stand in the directory for worktrees.
pub fn managed_worktrees_from_porcelain(porcelain_output: &str) -> (list: Vec<ManagedWorktree>)
    ensures
        list.deep_view() == managed_in(porcelain_output@),
{
    proof {
        reveal_strlit("\n\n");
    }
    let records = text::split(porcelain_output, "\n\n");
    let ghost parts = text::parts_of(porcelain_output@, "\n\n"@);
    assert(parts.len() > 0);
    assert(records.deep_view()[0] == records@[0]@);
    let mut list: Vec<ManagedWorktree> = Vec::new();
    let root: String = match worktree_record_path(records[0].as_str()) {
        Some(root) => root,
        None => {
            assert(list.deep_view() =~= Seq::empty());
            return list;
        },
    };
    let directory: String = path::join(root.as_str(), WORKTREE_DIRECTORY_NAME);
    let ghost others = parts.drop_first();
    let mut index: usize = 1;
    assert(list.deep_view() =~= managed_records(others.take(0), directory@));
    while index < records.len()
        invariant
            1 <= index <= records.len(),
            records.deep_view() == parts,
            others == parts.drop_first(),
            list.deep_view() == managed_records(others.take(index - 1), directory@),
        decreases records.len() - index,
    {
        let ghost before = list.deep_view();
        assert(others.take(index as int).drop_last() =~= others.take(index - 1));
        assert(others.take(index as int).last() == records@[index as int]@);
        if let Some(worktree) = managed_worktree_from_record(
            records[index].as_str(),
            directory.as_str(),
        ) {
            list.push(worktree);
            assert(list.deep_view() =~= before.push(worktree.deep_view()));
        }
        index += 1;
    }
    assert(others.take(index - 1) =~= others);
    list
}

/// The worktrees that stand in the directory for worktrees.
pub open spec fn managed_flow(root: Seq<char>, replies: Seq<ReplyView>) -> Flow<Seq<ManagedView>> {
    match git::git_output_flow(root, seq!["worktree"@, "list"@, "--porcelain"@], replies) {
        (Err(halt), rest) => (Err(halt), rest),
        (Ok(listing), rest) => (Ok(managed_in(listing)), rest),
    }
}

/// Lists the worktrees that stand in the directory for worktrees.
pub fn list_managed_worktrees(main_worktree_root: &str, session: &mut Session<'_>) -> (result:
    Result<Vec<ManagedWorktree>, Halt>)
    ensures
        (host::seen(result), final(session)@) == managed_flow(
            main_worktree_root@,
            old(session)@,
        ),
{
    let listing: String = git::git_output(
        main_worktree_root,
        git::list3("worktree", "list", "--porcelain"),
        session,
    )?;
    Ok(managed_worktrees_from_porcelain(listing.as_str()))
}

/// Git's removal of what it keeps about worktrees that are gone.
pub open spec fn prune_flow(root: Seq<char>, replies: Seq<ReplyView>) -> Flow<()> {
    match git::git_output_flow(root, seq!["worktree"@, "prune"@], replies) {
        (Err(halt), rest) => (Err(halt), rest),
        (Ok(_), rest) => (Ok(()), rest),
    }
}

/// Lets Git forget the worktrees whose directories are gone.
pub fn prune_worktree_metadata(main_worktree_root: &str, session: &mut Session<'_>) -> (result:
    Result<(), Halt>)
    ensures
        (host::seen(result), final(session)@) == prune_flow(main_worktree_root@, old(session)@),
{
    let _ = git::git_output(main_worktree_root, git::list2("worktree", "prune"), session)?;
    Ok(())
}

/// The local branches in Git's list, one to a line.
pub open spec fn bases_in(listing: Seq<char>) -> Seq<BaseView> {
    text::lines_of(listing).map_values(|branch: Seq<char>| BaseView::LocalBranch(branch))
}

/// The local branches in Git's list, one to a line.
pub fn bases_from_listing(listing: &str) -> (bases: Vec<WorktreeBase>)
    ensures
        bases.deep_view() == bases_in(listing@),
{
    let lines = text::lines(listing);
    let mut bases: Vec<WorktreeBase> = Vec::new();
    let mut index: usize = 0;
    while index < lines.len()
        invariant
            index <= lines.len(),
            lines.deep_view() == text::lines_of(listing@),
            bases.deep_view() == bases_in(listing@).take(index as int),
        decreases lines.len() - index,
    {
        let ghost before = bases.deep_view();
        bases.push(WorktreeBase::LocalBranch(lines[index].clone()));
        proof {
            let added = BaseView::LocalBranch(lines.deep_view()[index as int]);
            assert(bases.deep_view() =~= before.push(added));
            assert(bases_in(listing@).take(index + 1) =~= before.push(added));
        }
        index += 1;
    }
    assert(bases_in(listing@).take(index as int) =~= bases_in(listing@));
    bases
}

/// The local branches, the one with the latest commit first.
pub open spec fn bases_flow(directory: Seq<char>, replies: Seq<ReplyView>) -> Flow<Seq<BaseView>> {
    match git::discover_flow(directory, replies) {
        (Err(halt), rest) => (Err(halt), rest),
        (Ok(root), rest) => match git::git_output_flow(
            root,
            seq![
                "for-each-ref"@,
                "--sort=-committerdate"@,
                "--format=%(refname:short)"@,
                "refs/heads"@,
            ],
            rest,
        ) {
            (Err(halt), rest) => (Err(halt), rest),
            (Ok(listing), rest) => (Ok(bases_in(listing)), rest),
        },
    }
}

/// Lists the local branches, the one with the latest commit first.
pub fn list_worktree_bases(cwd: &str, session: &mut Session<'_>) -> (result: Result<
    Vec<WorktreeBase>,
    Halt,
>)
    ensures
        (host::seen(result), final(session)@) == bases_flow(cwd@, old(session)@),
{
    let root: String = git::discover_git_context(cwd, session)?;
    let listing: String = git::git_output(
        root.as_str(),
        git::list4(
            "for-each-ref",
            "--sort=-committerdate",
            "--format=%(refname:short)",
            "refs/heads",
        ),
        session,
    )?;
    Ok(bases_from_listing(listing.as_str()))
}

/// The local branch that is checked out. Git ends with 1 where the head is detached.
pub open spec fn current_base_flow(directory: Seq<char>, replies: Seq<ReplyView>) -> Flow<
    Option<BaseView>,
> {
    match git::git_status_flow(
        directory,
        seq!["symbolic-ref"@, "--quiet"@, "--short"@, "HEAD"@],
        replies,
    ) {
        (Err(halt), rest) => (Err(halt), rest),
        (Ok(output), rest) => if output.succeeded() {
            (Ok(Some(BaseView::LocalBranch(git::trimmed_text(output.stdout)))), rest)
        } else if output.code == Some(1i32) {
            (Ok(None), rest)
        } else {
            host::failed(
                "failed to determine the checked-out branch: "@ + git::trimmed_text(
                    output.stderr,
                ),
                rest,
            )
        },
    }
}

/// The local branch that is checked out, unless the head is detached.
pub fn current_worktree_base(cwd: &str, session: &mut Session<'_>) -> (result: Result<
    Option<WorktreeBase>,
    Halt,
>)
    ensures
        (host::seen(result), final(session)@) == current_base_flow(cwd@, old(session)@),
{
    let output = git::git_status(
        cwd,
        git::list4("symbolic-ref", "--quiet", "--short", "HEAD"),
        session,
    )?;
    if output.success() {
        return Ok(Some(WorktreeBase::LocalBranch(git::trimmed_lossy(&output.stdout))));
    }
    if output.exited_with(1) {
        return Ok(None);
    }
    Err(
        Halt::Failed(
            "failed to determine the checked-out branch: ".to_owned().concat(
                git::trimmed_lossy(&output.stderr).as_str(),
            ),
        ),
    )
}

} // verus!
