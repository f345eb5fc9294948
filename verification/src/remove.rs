//! The removal of worktrees.

use vstd::prelude::*;
use vstd::pervasive::unreached;
use crate::git;
use crate::host;
use crate::host::{Flow, Halt, HaltView, Reply, ReplyView, Request, RequestView, Session};
use crate::model::{BranchOutcome, BranchView, ManagedView, ManagedWorktree};
use crate::setup;
use crate::text;

verus! {

/// The arguments with which Git removes a worktree. It refuses one with changes that are not
/// committed, unless it is forced.
pub open spec fn remove_arguments(path: Seq<char>, force: bool) -> Seq<Seq<char>> {
    if force {
        seq!["worktree"@, "remove"@, "--force"@, path]
    } else {
        seq!["worktree"@, "remove"@, path]
    }
}

/// The removal of the worktree's directory by Git.
pub open spec fn remove_directory_flow(
    root: Seq<char>,
    path: Seq<char>,
    force: bool,
    replies: Seq<ReplyView>,
) -> Flow<()> {
    match host::ask_flow(
        RequestView::Git { directory: root, arguments: remove_arguments(path, force) },
        replies,
    ) {
        (Err(halt), rest) => (Err(halt), rest),
        (Ok(reply), rest) => if reply is Failed {
            host::failed("failed to start git worktree remove: "@ + reply->Failed_0, rest)
        } else if reply->Ended_0.succeeded() {
            (Ok(()), rest)
        } else {
            host::failed(
                "failed to remove worktree "@ + path + ": "@ + git::message_of(
                    git::utf8_lossy(reply->Ended_0.stderr),
                ),
                rest,
            )
        },
    }
}

/// Has Git remove the worktree's directory.
pub fn remove_worktree_directory(
    main_worktree_root: &str,
    worktree_path: &str,
    force: bool,
    session: &mut Session<'_>,
) -> (result: Result<(), Halt>)
    ensures
        (host::seen(result), final(session)@) == remove_directory_flow(
            main_worktree_root@,
            worktree_path@,
            force,
            old(session)@,
        ),
{
    let arguments: Vec<String> = if force {
        git::list4("worktree", "remove", "--force", worktree_path)
    } else {
        git::list3("worktree", "remove", worktree_path)
    };
    match session.ask(Request::Git { directory: main_worktree_root.to_owned(), arguments })? {
        Reply::Failed(error) => Err(
            Halt::Failed(
                "failed to start git worktree remove: ".to_owned().concat(error.as_str()),
            ),
        ),
        Reply::Ended(output) => if output.success() {
            Ok(())
        } else {
            Err(
                Halt::Failed(
                    "failed to remove worktree ".to_owned().concat(worktree_path).concat(
                        ": ",
                    ).concat(git::git_message(&output.stderr).as_str()),
                ),
            )
        },
        _ => unreached(),
    }
}

/// The deletion of the branch by Git. It refuses one with commits that are not merged, unless it
/// is forced; the branch is then kept, which is no failure.
pub open spec fn delete_branch_flow(
    root: Seq<char>,
    branch: Seq<char>,
    force: bool,
    replies: Seq<ReplyView>,
) -> Flow<BranchView> {
    let flag = if force {
        "-D"@
    } else {
        "-d"@
    };
    match git::git_status_flow(root, seq!["branch"@, flag, branch], replies) {
        (Err(halt), rest) => (Err(halt), rest),
        (Ok(output), rest) => if output.succeeded() {
            (Ok(BranchView::Deleted(branch)), rest)
        } else {
            (
                Ok(
                    BranchView::Kept {
                        branch,
                        reason: git::message_of(git::utf8_lossy(output.stderr)),
                    },
                ),
                rest,
            )
        },
    }
}

/// Has Git delete the branch, and tells whether it did.
pub fn delete_worktree_branch(
    main_worktree_root: &str,
    branch: &str,
    force: bool,
    session: &mut Session<'_>,
) -> (result: Result<BranchOutcome, Halt>)
    ensures
        (host::seen(result), final(session)@) == delete_branch_flow(
            main_worktree_root@,
            branch@,
            force,
            old(session)@,
        ),
{
    let flag: &str = if force {
        "-D"
    } else {
        "-d"
    };
    let output = git::git_status(
        main_worktree_root,
        git::list3("branch", flag, branch),
        session,
    )?;
    if output.success() {
        Ok(BranchOutcome::Deleted(branch.to_owned()))
    } else {
        Ok(
            BranchOutcome::Kept {
                branch: branch.to_owned(),
                reason: git::git_message(&output.stderr),
            },
        )
    }
}

/// The removal of a worktree: its directory, the files of its worker, and its branch.
pub open spec fn remove_flow(
    root: Seq<char>,
    worktree: ManagedView,
    force: bool,
    replies: Seq<ReplyView>,
) -> Flow<BranchView> {
    match remove_directory_flow(root, worktree.path, force, replies) {
        (Err(halt), rest) => (Err(halt), rest),
        (Ok(_), rest) => match setup::remove_artifacts_flow(root, worktree.name, rest) {
            (Err(halt), rest) => (Err(halt), rest),
            (Ok(_), rest) => match worktree.branch {
                Some(branch) => delete_branch_flow(root, branch, force, rest),
                None => (Ok(BranchView::NoBranch), rest),
            },
        },
    }
}

/// Removes the worktree, and tells what became of its branch.
pub fn remove_worktree(
    main_worktree_root: &str,
    worktree: &ManagedWorktree,
    force: bool,
    session: &mut Session<'_>,
) -> (result: Result<BranchOutcome, Halt>)
    ensures
        (host::seen(result), final(session)@) == remove_flow(
            main_worktree_root@,
            worktree.deep_view(),
            force,
            old(session)@,
        ),
{
    remove_worktree_directory(main_worktree_root, worktree.path.as_str(), force, session)?;
    setup::remove_background_setup_artifacts(
        main_worktree_root,
        worktree.name.as_str(),
        session,
    )?;
    match &worktree.branch {
        Some(branch) => delete_worktree_branch(
            main_worktree_root,
            branch.as_str(),
            force,
            session,
        ),
        None => Ok(BranchOutcome::NoBranch),
    }
}

/// What is said of a removed worktree's branch.
pub open spec fn branch_message(outcome: BranchView) -> Option<Seq<char>> {
    match outcome {
        BranchView::Deleted(branch) => Some("deleted branch '"@ + branch + "'"@),
        BranchView::Kept { branch, reason } => Some(
            "kept branch '"@ + branch + "': "@ + reason,
        ),
        BranchView::NoBranch => None,
    }
}

/// What is said of a removed worktree's branch.
pub fn branch_outcome_message(branch_outcome: &BranchOutcome) -> (message: Option<String>)
    ensures
        message.deep_view() == branch_message(branch_outcome.deep_view()),
{
    match branch_outcome {
        BranchOutcome::Deleted(branch) => Some(
            "deleted branch '".to_owned().concat(branch.as_str()).concat("'"),
        ),
        BranchOutcome::Kept { branch, reason } => Some(
            "kept branch '".to_owned().concat(branch.as_str()).concat("': ").concat(
                reason.as_str(),
            ),
        ),
        BranchOutcome::NoBranch => None,
    }
}

/// A line on the standard output.
pub open spec fn print_flow(line: Seq<char>, replies: Seq<ReplyView>) -> Flow<()> {
    match host::ask_flow(RequestView::Print { line }, replies) {
        (Err(halt), rest) => (Err(halt), rest),
        (Ok(_), rest) => (Ok(()), rest),
    }
}

/// Writes a line to the standard output.
pub fn print_line(line: String, session: &mut Session<'_>) -> (result: Result<(), Halt>)
    ensures
        (host::seen(result), final(session)@) == print_flow(line@, old(session)@),
{
    let _ = session.ask(Request::Print { line })?;
    Ok(())
}

/// A line on the standard error.
pub open spec fn report_flow(line: Seq<char>, replies: Seq<ReplyView>) -> Flow<()> {
    match host::ask_flow(RequestView::Report { line }, replies) {
        (Err(halt), rest) => (Err(halt), rest),
        (Ok(_), rest) => (Ok(()), rest),
    }
}

/// Writes a line to the standard error.
pub fn report_line(line: String, session: &mut Session<'_>) -> (result: Result<(), Halt>)
    ensures
        (host::seen(result), final(session)@) == report_flow(line@, old(session)@),
{
    let _ = session.ask(Request::Report { line })?;
    Ok(())
}

/// The removal of one of the selected worktrees, with what is said about it, and whether it was
/// removed. That it was not is reported, and no failure of the whole.
pub open spec fn attempt_flow(
    root: Seq<char>,
    worktree: ManagedView,
    force: bool,
    replies: Seq<ReplyView>,
) -> Flow<bool> {
    match remove_flow(root, worktree, force, replies) {
        (Err(HaltView::Failed(error)), rest) => match report_flow("error: "@ + error, rest) {
            (Err(halt), rest) => (Err(halt), rest),
            (Ok(_), rest) => (Ok(false), rest),
        },
        (Err(halt), rest) => (Err(halt), rest),
        (Ok(outcome), rest) => match print_flow(
            "removed worktree '"@ + worktree.name + "'"@,
            rest,
        ) {
            (Err(halt), rest) => (Err(halt), rest),
            (Ok(_), rest) => match branch_message(outcome) {
                None => (Ok(true), rest),
                Some(message) => match print_flow(message, rest) {
                    (Err(halt), rest) => (Err(halt), rest),
                    (Ok(_), rest) => (Ok(true), rest),
                },
            },
        },
    }
}

/// Removes one of the selected worktrees, says what came of it, and tells whether it did.
pub fn attempt_removal(
    repository_root: &str,
    worktree: &ManagedWorktree,
    force: bool,
    session: &mut Session<'_>,
) -> (result: Result<bool, Halt>)
    ensures
        (host::seen(result), final(session)@) == attempt_flow(
            repository_root@,
            worktree.deep_view(),
            force,
            old(session)@,
        ),
{
    match remove_worktree(repository_root, worktree, force, session) {
        Ok(outcome) => {
            print_line(
                "removed worktree '".to_owned().concat(worktree.name.as_str()).concat("'"),
                session,
            )?;
            if let Some(message) = branch_outcome_message(&outcome) {
                print_line(message, session)?;
            }
            Ok(true)
        },
        Err(Halt::Failed(error)) => {
            report_line("error: ".to_owned().concat(error.as_str()), session)?;
            Ok(false)
        },
        Err(halt) => Err(halt),
    }
}

/// The removal of worktrees one after the other, and how many of them were not removed.
pub open spec fn attempts_flow(
    root: Seq<char>,
    worktrees: Seq<ManagedView>,
    force: bool,
    replies: Seq<ReplyView>,
) -> Flow<nat>
    decreases worktrees.len(),
{
    if worktrees.len() == 0 {
        (Ok(0), replies)
    } else {
        match attempts_flow(root, worktrees.drop_last(), force, replies) {
            (Err(halt), rest) => (Err(halt), rest),
            (Ok(failures), rest) => match attempt_flow(root, worktrees.last(), force, rest) {
                (Err(halt), rest) => (Err(halt), rest),
                (Ok(removed), rest) => (
                    Ok(
                        if removed {
                            failures
                        } else {
                            failures + 1
                        },
                    ),
                    rest,
                ),
            },
        }
    }
}

/// The removal of the selected worktrees, which fails in the end where one was not removed.
pub open spec fn removals_flow(
    root: Seq<char>,
    worktrees: Seq<ManagedView>,
    force: bool,
    replies: Seq<ReplyView>,
) -> Flow<()> {
    match attempts_flow(root, worktrees, force, replies) {
        (Err(halt), rest) => (Err(halt), rest),
        (Ok(failures), rest) => if failures > 0 {
            host::failed(
                "failed to remove "@ + text::decimal(failures) + " of "@ + text::decimal(
                    worktrees.len(),
                ) + " worktree(s)"@,
                rest,
            )
        } else {
            (Ok(()), rest)
        },
    }
}

/// A halt of an earlier part is the halt of the whole.
proof fn lemma_attempts_halt(
    root: Seq<char>,
    worktrees: Seq<ManagedView>,
    count: int,
    force: bool,
    replies: Seq<ReplyView>,
)
    requires
        0 <= count <= worktrees.len(),
        attempts_flow(root, worktrees.take(count), force, replies).0 is Err,
    ensures
        attempts_flow(root, worktrees, force, replies) == attempts_flow(
            root,
            worktrees.take(count),
            force,
            replies,
        ),
    decreases worktrees.len(),
{
    if count == worktrees.len() {
        assert(worktrees.take(count) =~= worktrees);
    } else {
        assert(worktrees.drop_last().take(count) =~= worktrees.take(count));
        lemma_attempts_halt(root, worktrees.drop_last(), count, force, replies);
    }
}

/// Removes the selected worktrees. One that is not removed does not keep the rest from it.
pub fn remove_selected_worktrees(
    repository_root: &str,
    worktrees: &[ManagedWorktree],
    force: bool,
    session: &mut Session<'_>,
) -> (result: Result<(), Halt>)
    ensures
        (host::seen(result), final(session)@) == removals_flow(
            repository_root@,
            worktrees.deep_view(),
            force,
            old(session)@,
        ),
{
    let mut failures: usize = 0;
    let mut index: usize = 0;
    let ghost all = worktrees.deep_view();
    while index < worktrees.len()
        invariant
            failures <= index <= worktrees.len(),
            all == worktrees.deep_view(),
            attempts_flow(repository_root@, all.take(index as int), force, old(session)@) == (
                Ok::<nat, HaltView>(failures as nat),
                session@,
            ),
        decreases worktrees.len() - index,
    {
        assert(all.take(index + 1).drop_last() =~= all.take(index as int));
        assert(all.take(index + 1).last() == worktrees@[index as int].deep_view());
        let attempt = attempt_removal(repository_root, &worktrees[index], force, session);
        proof {
            if attempt is Err {
                lemma_attempts_halt(
                    repository_root@,
                    all,
                    index + 1,
                    force,
                    old(session)@,
                );
            }
        }
        if !attempt? {
            failures += 1;
        }
        index += 1;
    }
    assert(all.take(index as int) =~= all);
    if failures > 0 {
        return Err(
            Halt::Failed(
                "failed to remove ".to_owned().concat(
                    text::decimal_text(failures as u64).as_str(),
                ).concat(" of ").concat(
                    text::decimal_text(worktrees.len() as u64).as_str(),
                ).concat(" worktree(s)"),
            ),
        );
    }
    Ok(())
}

} // verus!
