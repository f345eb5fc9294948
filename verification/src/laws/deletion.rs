//! What the removal of a worktree asks for, word for word, and what it makes of each answer.

use vstd::prelude::*;
use crate::clean;
use crate::git;
use crate::host::{HaltView, ReplyView, RequestView};
use crate::laws::questions as q;
use crate::laws::removal;
use crate::model::{BranchView, ManagedView};
use crate::path;
use crate::remove;
use crate::setup;
use crate::text;

verus! {

broadcast use q::lemma_after;

/// Git's removal of the worktree at a path.
pub open spec fn removal_of(root: Seq<char>, path: Seq<char>, force: bool) -> RequestView {
    RequestView::Git {
        directory: root,
        arguments: if force {
            seq!["worktree"@, "remove"@, "--force"@, path]
        } else {
            seq!["worktree"@, "remove"@, path]
        },
    }
}

/// Git's deletion of a branch.
pub open spec fn deletion_of(root: Seq<char>, branch: Seq<char>, force: bool) -> RequestView {
    RequestView::Git {
        directory: root,
        arguments: seq![
            "branch"@,
            if force {
                "-D"@
            } else {
                "-d"@
            },
            branch,
        ],
    }
}

/// Law: Git removes the directory, forced only where that is asked for, and has to end with zero.
pub proof fn law_the_directory_is_removed(
    root: Seq<char>,
    path: Seq<char>,
    force: bool,
    replies: Seq<ReplyView>,
)
    ensures
        ({
            let flow = remove::remove_directory_flow(root, path, force, replies);
            let request = removal_of(root, path, force);
            &&& q::unanswered(request, replies) ==> q::waits(flow, request, replies)
            &&& q::well(replies) ==> q::gives(flow, (), q::after(replies))
            &&& q::badly(replies) ==> q::fails(
                flow,
                "failed to remove worktree "@ + path + ": "@ + git::message_of(
                    git::utf8_lossy(replies[0]->Ended_0.stderr),
                ),
                q::after(replies),
            )
            &&& q::unable(replies) ==> q::fails(
                flow,
                "failed to start git worktree remove: "@ + replies[0]->Failed_0,
                q::after(replies),
            )
        }),
{
}

/// Law: Git deletes the branch, forced only where that is asked for. The branch is deleted where
/// Git ends with zero, and kept otherwise, for the reason that Git complains of.
pub proof fn law_the_branch_is_deleted(
    root: Seq<char>,
    branch: Seq<char>,
    force: bool,
    replies: Seq<ReplyView>,
)
    ensures
        ({
            let flow = remove::delete_branch_flow(root, branch, force, replies);
            let request = deletion_of(root, branch, force);
            &&& q::unanswered(request, replies) ==> q::waits(flow, request, replies)
            &&& q::well(replies) ==> q::gives(
                flow,
                BranchView::Deleted(branch),
                q::after(replies),
            )
            &&& q::badly(replies) ==> q::gives(
                flow,
                BranchView::Kept {
                    branch,
                    reason: git::message_of(git::utf8_lossy(replies[0]->Ended_0.stderr)),
                },
                q::after(replies),
            )
            &&& q::unable(replies) ==> q::fails(
                flow,
                q::no_answer(request->Git_arguments, replies),
                q::after(replies),
            )
        }),
{
}

/// Law: the worker's log and then its status file are removed, from where the worker's files are;
/// that one is not there is no failure.
pub proof fn law_the_files_of_the_worker_are_removed(
    root: Seq<char>,
    name: Seq<char>,
    replies: Seq<ReplyView>,
)
    ensures
        ({
            let flow = setup::remove_artifacts_flow(root, name, replies);
            let (found, r1) = git::git_path_flow(root, "worktree-manager/setup"@, replies);
            let r2 = q::after(r1);
            let log = path::join_of(found->Ok_0, name + ".log"@);
            let status = path::join_of(found->Ok_0, name + ".status"@);
            let first = RequestView::Remove { path: log };
            let second = RequestView::Remove { path: status };
            &&& found matches Err(halt) ==> flow.0 == Err::<(), HaltView>(halt) && flow.1 == r1
            &&& found is Ok ==> {
                &&& q::unanswered(first, r1) ==> q::waits(flow, first, r1)
                &&& q::unable(r1) ==> q::fails(
                    flow,
                    "failed to remove background setup file "@ + log + ": "@ + r1[0]->Failed_0,
                    r2,
                )
                &&& r1.len() > 0 && (r1[0] is Done || r1[0] is Absent) ==> {
                    &&& q::unanswered(second, r2) ==> q::waits(flow, second, r2)
                    &&& q::unable(r2) ==> q::fails(
                        flow,
                        "failed to remove background setup file "@ + status + ": "@
                            + r2[0]->Failed_0,
                        q::after(r2),
                    )
                    &&& r2.len() > 0 && (r2[0] is Done || r2[0] is Absent) ==> q::gives(
                        flow,
                        (),
                        q::after(r2),
                    )
                }
            }
        }),
{
    reveal_strlit(".");
    reveal_strlit("log");
    reveal_strlit(".log");
    reveal_strlit("status");
    reveal_strlit(".status");
    assert(name + "."@ + "log"@ =~= name + ".log"@);
    assert(name + "."@ + "status"@ =~= name + ".status"@);
}

/// Law: the directory is removed first, then the files of the worker, then the branch, if there is
/// one; each follows the success of the one before it, and none is left out.
pub proof fn law_the_order_of_a_removal(
    root: Seq<char>,
    worktree: ManagedView,
    force: bool,
    replies: Seq<ReplyView>,
)
    ensures
        ({
            let flow = remove::remove_flow(root, worktree, force, replies);
            let (gone, r1) = remove::remove_directory_flow(root, worktree.path, force, replies);
            let (files, r2) = setup::remove_artifacts_flow(root, worktree.name, r1);
            let last = q::after(r2);
            &&& gone matches Err(halt) ==> flow.0 == Err::<BranchView, HaltView>(halt)
                && flow.1 == r1
            &&& gone is Ok ==> {
                &&& files matches Err(halt) ==> flow.0 == Err::<BranchView, HaltView>(halt)
                    && flow.1 == r2
                &&& files is Ok ==> {
                    &&& worktree.branch is None ==> q::gives(flow, BranchView::NoBranch, r2)
                    &&& worktree.branch matches Some(branch) ==> {
                        let request = deletion_of(root, branch, force);
                        &&& q::unanswered(request, r2) ==> q::waits(flow, request, r2)
                        &&& q::well(r2) ==> q::gives(flow, BranchView::Deleted(branch), last)
                        &&& q::badly(r2) ==> q::gives(
                            flow,
                            BranchView::Kept {
                                branch,
                                reason: git::message_of(git::utf8_lossy(r2[0]->Ended_0.stderr)),
                            },
                            last,
                        )
                        &&& q::unable(r2) ==> q::fails(
                            flow,
                            q::no_answer(request->Git_arguments, r2),
                            last,
                        )
                    }
                }
            }
        }),
{
    law_the_directory_is_removed(root, worktree.path, force, replies);
    if let Some(branch) = worktree.branch {
        let r1 = remove::remove_directory_flow(root, worktree.path, force, replies).1;
        let r2 = setup::remove_artifacts_flow(root, worktree.name, r1).1;
        law_the_branch_is_deleted(root, branch, force, r2);
    }
}

/// A request to Git that belongs to the removal of a worktree.
pub open spec fn of_removal(
    request: RequestView,
    root: Seq<char>,
    worktree: ManagedView,
    force: bool,
) -> bool {
    ||| request == removal_of(root, worktree.path, force)
    ||| request == q::asked(root, seq!["rev-parse"@, "--git-path"@, "worktree-manager/setup"@])
    ||| worktree.branch is Some && request == deletion_of(root, worktree.branch->0, force)
}

/// Law: whatever the removal of a worktree asks of Git is the removal of the worktree's directory,
/// the place of the worker's files or the deletion of the worktree's branch, each forced exactly
/// where that is asked for.
pub proof fn law_what_a_removal_asks_of_git(
    root: Seq<char>,
    worktree: ManagedView,
    force: bool,
    replies: Seq<ReplyView>,
    request: RequestView,
)
    requires
        remove::remove_flow(root, worktree, force, replies).0 == Err::<BranchView, HaltView>(
            HaltView::Pending(request),
        ) || remove::attempt_flow(root, worktree, force, replies).0 == Err::<bool, HaltView>(
            HaltView::Pending(request),
        ),
        request is Git,
    ensures
        of_removal(request, root, worktree, force),
{
    law_the_order_of_a_removal(root, worktree, force, replies);
    law_the_directory_is_removed(root, worktree.path, force, replies);
    let (gone, r1) = remove::remove_directory_flow(root, worktree.path, force, replies);
    q::law_a_path_among_gits_own(root, "worktree-manager/setup"@, r1);
}

/// Words of Git's commands differ.
proof fn lemma_words()
    ensures
        "worktree"@ != "branch"@,
        "worktree"@ != "rev-parse"@,
        "branch"@ != "rev-parse"@,
        "remove"@ != "list"@,
        "remove"@ != "prune"@,
        "-d"@ != "-D"@,
        "--force"@ != "worktree"@,
        "--force"@ != "remove"@,
{
    reveal_strlit("worktree");
    reveal_strlit("branch");
    reveal_strlit("rev-parse");
    reveal_strlit("remove");
    reveal_strlit("list");
    reveal_strlit("prune");
    reveal_strlit("-d");
    reveal_strlit("-D");
    reveal_strlit("--force");
    assert("worktree"@.len() == 8 && "branch"@.len() == 6 && "rev-parse"@.len() == 9);
    assert("remove"@.len() == 6 && "list"@.len() == 4 && "prune"@.len() == 5);
    assert("-d"@[1] != "-D"@[1]);
    assert("--force"@.len() == 7);
}

/// The parts of a request to Git that are forced exactly where that is asked for, with the branch
/// and the path of a worktree.
pub open spec fn forced_as_asked(
    arguments: Seq<Seq<char>>,
    worktree: ManagedView,
    force: bool,
) -> bool {
    &&& arguments[0] == "branch"@ ==> worktree.branch is Some && arguments == (if force {
        seq!["branch"@, "-D"@, worktree.branch->0]
    } else {
        seq!["branch"@, "-d"@, worktree.branch->0]
    })
    &&& arguments[0] == "worktree"@ ==> arguments == (if force {
        seq!["worktree"@, "remove"@, "--force"@, worktree.path]
    } else {
        seq!["worktree"@, "remove"@, worktree.path]
    })
}

/// Law: a removal asks Git to delete the branch of the worktree with `-d`, and with `-D` where it
/// is forced; and to remove the directory with `--force` only where it is forced.
pub proof fn law_a_removal_is_forced_only_where_asked(
    root: Seq<char>,
    worktree: ManagedView,
    force: bool,
    replies: Seq<ReplyView>,
    request: RequestView,
)
    requires
        remove::remove_flow(root, worktree, force, replies).0 == Err::<BranchView, HaltView>(
            HaltView::Pending(request),
        ) || remove::attempt_flow(root, worktree, force, replies).0 == Err::<bool, HaltView>(
            HaltView::Pending(request),
        ),
        request is Git,
    ensures
        request->Git_directory == root,
        request->Git_arguments.len() > 2,
        forced_as_asked(request->Git_arguments, worktree, force),
{
    law_what_a_removal_asks_of_git(root, worktree, force, replies, request);
    lemma_words();
}

/// Law: the same of the removal of several worktrees: whatever it asks of Git is forced as asked,
/// with the branch and the path of one of them.
pub proof fn law_removals_are_forced_only_where_asked(
    root: Seq<char>,
    worktrees: Seq<ManagedView>,
    force: bool,
    replies: Seq<ReplyView>,
    request: RequestView,
)
    requires
        remove::removals_flow(root, worktrees, force, replies).0 == Err::<(), HaltView>(
            HaltView::Pending(request),
        ) || remove::attempts_flow(root, worktrees, force, replies).0 == Err::<nat, HaltView>(
            HaltView::Pending(request),
        ),
        request is Git,
    ensures
        request->Git_directory == root,
        request->Git_arguments.len() > 2,
        exists|i: int|
            0 <= i < worktrees.len() && forced_as_asked(
                request->Git_arguments,
                #[trigger] worktrees[i],
                force,
            ),
    decreases worktrees.len(),
{
    if worktrees.len() > 0 {
        let before = worktrees.drop_last();
        let (earlier, rest) = remove::attempts_flow(root, before, force, replies);
        if earlier is Err {
            law_removals_are_forced_only_where_asked(root, before, force, replies, request);
            let i = choose|i: int|
                0 <= i < before.len() && forced_as_asked(
                    request->Git_arguments,
                    #[trigger] before[i],
                    force,
                );
            assert(worktrees[i] == before[i]);
        } else {
            law_a_removal_is_forced_only_where_asked(
                root,
                worktrees.last(),
                force,
                rest,
                request,
            );
            assert(worktrees[worktrees.len() - 1] == worktrees.last());
        }
    }
}

/// Law: a clean-up asks Git to delete a branch only with `-d`, and with `-D` where it is forced,
/// and only the branch of an approved worktree; and to remove a worktree only with its path, and with
/// `--force` only where it is forced.
pub proof fn law_a_clean_up_is_forced_only_where_asked(
    directory: Seq<char>,
    names: Seq<Seq<char>>,
    force: bool,
    replies: Seq<ReplyView>,
    request: RequestView,
)
    requires
        clean::clean_flow(directory, names, force, replies).0 == Err::<(), HaltView>(
            HaltView::Pending(request),
        ),
        request is Git,
        request->Git_arguments[0] == "branch"@ || (request->Git_arguments[0] == "worktree"@
            && request->Git_arguments[1] == "remove"@),
    ensures
        removal::listed(directory, replies).0 is Ok,
        ({
            let (root, worktrees) = removal::listed(directory, replies).0->Ok_0;
            let rest = removal::listed(directory, replies).1;
            &&& request->Git_directory == root
            &&& clean::approve_flow(directory, worktrees, names, force, rest).0 matches Ok(approved)
                && exists|i: int|
                0 <= i < approved.len() && forced_as_asked(
                    request->Git_arguments,
                    #[trigger] approved[i],
                    force,
                )
        }),
{
    lemma_words();
    match removal::listed(directory, replies) {
        (Err(_), _) => {},
        (Ok((root, worktrees)), rest) => {
            removal::lemma_approval_asks_no_git(directory, worktrees, names, force, rest);
            let (approval, rest1) = clean::approve_flow(directory, worktrees, names, force, rest);
            if let Ok(approved) = approval {
                law_removals_are_forced_only_where_asked(root, approved, force, rest1, request);
            }
        },
    }
}

/// Law: what is said of a branch.
pub proof fn law_what_is_said_of_a_branch(branch: Seq<char>, reason: Seq<char>)
    ensures
        remove::branch_message(BranchView::Deleted(branch)) == Some(
            "deleted branch '"@ + branch + "'"@,
        ),
        remove::branch_message(BranchView::Kept { branch, reason }) == Some(
            "kept branch '"@ + branch + "': "@ + reason,
        ),
        remove::branch_message(BranchView::NoBranch) is None,
{
}

/// Law: a line goes to the standard output, or to the standard error.
pub proof fn law_a_line_is_written(line: Seq<char>, replies: Seq<ReplyView>)
    ensures
        ({
            let out = RequestView::Print { line };
            let error = RequestView::Report { line };
            &&& q::unanswered(out, replies) ==> q::waits(
                remove::print_flow(line, replies),
                out,
                replies,
            )
            &&& q::unanswered(error, replies) ==> q::waits(
                remove::report_flow(line, replies),
                error,
                replies,
            )
            &&& replies.len() > 0 && replies[0] is Done ==> q::gives(
                remove::print_flow(line, replies),
                (),
                q::after(replies),
            ) && q::gives(remove::report_flow(line, replies), (), q::after(replies))
        }),
{
}

/// Law: a worktree that was removed is told, with what became of its branch; the error of one that
/// was not is reported.
pub proof fn law_what_is_said_of_a_removal(
    root: Seq<char>,
    worktree: ManagedView,
    force: bool,
    replies: Seq<ReplyView>,
)
    ensures
        ({
            let flow = remove::attempt_flow(root, worktree, force, replies);
            let (outcome, rest) = remove::remove_flow(root, worktree, force, replies);
            let removed = RequestView::Print { line: "removed worktree '"@ + worktree.name + "'"@ };
            let r1 = q::after(rest);
            &&& outcome matches Err(HaltView::Pending(request)) ==> q::waits(flow, request, rest)
            &&& outcome matches Err(HaltView::Failed(error)) ==> {
                let report = RequestView::Report { line: "error: "@ + error };
                &&& q::unanswered(report, rest) ==> q::waits(flow, report, rest)
                &&& rest.len() > 0 && rest[0] is Done ==> q::gives(flow, false, r1)
            }
            &&& outcome matches Ok(branch) ==> {
                &&& q::unanswered(removed, rest) ==> q::waits(flow, removed, rest)
                &&& rest.len() > 0 && rest[0] is Done ==> match branch {
                    BranchView::NoBranch => q::gives(flow, true, r1),
                    BranchView::Deleted(name) => {
                        let line = "deleted branch '"@ + name + "'"@;
                        let tell = RequestView::Print { line };
                        &&& q::unanswered(tell, r1) ==> q::waits(flow, tell, r1)
                        &&& r1.len() > 0 && r1[0] is Done ==> q::gives(flow, true, q::after(r1))
                    },
                    BranchView::Kept { branch, reason } => {
                        let line = "kept branch '"@ + branch + "': "@ + reason;
                        let tell = RequestView::Print { line };
                        &&& q::unanswered(tell, r1) ==> q::waits(flow, tell, r1)
                        &&& r1.len() > 0 && r1[0] is Done ==> q::gives(flow, true, q::after(r1))
                    },
                }
            }
        }),
{
}

/// Law: one more worktree is attempted after the others, whatever became of those, and counts where
/// it was not removed.
pub proof fn law_one_more_removal(
    root: Seq<char>,
    worktrees: Seq<ManagedView>,
    worktree: ManagedView,
    force: bool,
    replies: Seq<ReplyView>,
)
    ensures
        ({
            let (before, rest) = remove::attempts_flow(root, worktrees, force, replies);
            let flow = remove::attempts_flow(root, worktrees.push(worktree), force, replies);
            let (last, end) = remove::attempt_flow(root, worktree, force, rest);
            &&& before matches Err(halt) ==> flow.0 == Err::<nat, HaltView>(halt)
                && flow.1 == rest
            &&& before matches Ok(failures) ==> {
                &&& last matches Err(halt) ==> flow.0 == Err::<nat, HaltView>(halt)
                    && flow.1 == end
                &&& last == Ok::<bool, HaltView>(true) ==> q::gives(flow, failures, end)
                &&& last == Ok::<bool, HaltView>(false) ==> q::gives(
                    flow,
                    (failures + 1) as nat,
                    end,
                )
            }
        }),
        q::gives(remove::attempts_flow(root, Seq::empty(), force, replies), 0, replies),
{
    assert(worktrees.push(worktree).drop_last() =~= worktrees);
    assert(worktrees.push(worktree).last() == worktree);
}

/// Law: the removal of worktrees fails in the end exactly where one was not removed, and tells how
/// many of how many were not.
pub proof fn law_failures_are_counted(
    root: Seq<char>,
    worktrees: Seq<ManagedView>,
    force: bool,
    replies: Seq<ReplyView>,
)
    ensures
        ({
            let flow = remove::removals_flow(root, worktrees, force, replies);
            let (ended, rest) = remove::attempts_flow(root, worktrees, force, replies);
            &&& ended matches Err(halt) ==> flow.0 == Err::<(), HaltView>(halt) && flow.1 == rest
            &&& ended matches Ok(failures) ==> if failures == 0 {
                q::gives(flow, (), rest)
            } else {
                q::fails(
                    flow,
                    "failed to remove "@ + text::decimal(failures) + " of "@ + text::decimal(
                        worktrees.len(),
                    ) + " worktree(s)"@,
                    rest,
                )
            }
        }),
{
}

} // verus!
