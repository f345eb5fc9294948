//! What holds of the status that the worker leaves.

use vstd::prelude::*;
use crate::host::{HaltView, ReplyView, RequestView};
use crate::laws::creation;
use crate::model::BackgroundView;
use crate::setup;

verus! {

/// Law: before the worker starts, its status is `pending`; where it does not start, the status is
/// `failed` with the error. Nothing else is written then.
pub proof fn law_the_status_before_the_worker(
    executable: Seq<char>,
    setup: BackgroundView,
    replies: Seq<ReplyView>,
    path: Seq<char>,
    contents: Seq<char>,
)
    requires
        setup::start_flow(executable, setup, replies).0 == Err::<u32, HaltView>(
            HaltView::Pending(RequestView::Write { path, contents }),
        ),
    ensures
        path == setup.status_path,
        contents == "pending\n"@ || exists|error: Seq<char>|
            contents == "failed\n"@ + (#[trigger] ("failed to start background setup worker "@
                + executable + ": "@ + error)) + "\n"@,
{
}

/// Law: the status that the worker leaves tells how its commands ended: `running` before the
/// first of them, `succeeded` where all of them succeeded, and `failed` with the error where one
/// of them did not.
pub proof fn law_the_status_tells_the_outcome(
    root: Seq<char>,
    worktree: Seq<char>,
    status_path: Seq<char>,
    commands: Seq<Seq<char>>,
    replies: Seq<ReplyView>,
    path: Seq<char>,
    contents: Seq<char>,
)
    requires
        setup::worker_flow(root, worktree, status_path, commands, replies).0 == Err::<
            usize,
            HaltView,
        >(HaltView::Pending(RequestView::Write { path, contents })),
    ensures
        path == status_path,
        contents == "running\n"@ || {
            match setup::setup_flow(root, worktree, commands, replies.drop_first()).0 {
                Ok(_) => contents == "succeeded\n"@,
                Err(HaltView::Failed(error)) => contents == "failed\n"@ + error + "\n"@,
                Err(HaltView::Pending(_)) => false,
            }
        },
{
    creation::lemma_commands_are_told_the_repository(
        root,
        worktree,
        commands,
        replies.drop_first(),
    );
}

} // verus!
