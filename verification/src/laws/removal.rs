//! What holds of a clean-up.

use vstd::prelude::*;
use crate::clean;
use crate::git;
use crate::host;
use crate::host::{Flow, HaltView, ReplyView, RequestView};
use crate::listing;
use crate::model::ManagedView;
use crate::path;
use crate::path::ComponentView;
use crate::remove;
use crate::search;
use crate::select;
use crate::setup;
use crate::text;

verus! {

/// Law: a worktree that is not removed is reported, and does not end the clean-up.
pub proof fn law_refusals_do_not_stop_the_rest(
    root: Seq<char>,
    worktrees: Seq<ManagedView>,
    force: bool,
    replies: Seq<ReplyView>,
)
    ensures
        remove::attempts_flow(root, worktrees, force, replies).0 is Err ==> host::pending(
            remove::attempts_flow(root, worktrees, force, replies),
        ),
    decreases worktrees.len(),
{
    if worktrees.len() > 0 {
        law_refusals_do_not_stop_the_rest(root, worktrees.drop_last(), force, replies);
    }
}

/// The removal of the worktree at a position of the list, once those before it were attempted.
#[verifier::opaque]
pub open spec fn attempt_at(
    root: Seq<char>,
    worktrees: Seq<ManagedView>,
    force: bool,
    replies: Seq<ReplyView>,
    at: int,
) -> Flow<bool> {
    remove::attempt_flow(
        root,
        worktrees[at],
        force,
        remove::attempts_flow(root, worktrees.take(at), force, replies).1,
    )
}

/// Law: a clean-up that comes to its end attempted every selected worktree, and it fails exactly
/// when one of them was not removed.
pub proof fn law_every_worktree_is_attempted(
    root: Seq<char>,
    worktrees: Seq<ManagedView>,
    force: bool,
    replies: Seq<ReplyView>,
)
    requires
        !host::pending(remove::removals_flow(root, worktrees, force, replies)),
    ensures
        forall|i: int|
            0 <= i < worktrees.len() ==> (#[trigger] attempt_at(
                root,
                worktrees,
                force,
                replies,
                i,
            )).0 is Ok,
        remove::removals_flow(root, worktrees, force, replies).0 is Ok <==> forall|i: int|
            0 <= i < worktrees.len() ==> (#[trigger] attempt_at(
                root,
                worktrees,
                force,
                replies,
                i,
            )).0->Ok_0,
{
    law_refusals_do_not_stop_the_rest(root, worktrees, force, replies);
    lemma_attempts_are_counted(root, worktrees, force, replies);
}

/// The last attempt adds one to the failures, or nothing.
proof fn lemma_last_attempt(
    root: Seq<char>,
    worktrees: Seq<ManagedView>,
    force: bool,
    replies: Seq<ReplyView>,
)
    requires
        worktrees.len() > 0,
        remove::attempts_flow(root, worktrees, force, replies).0 is Ok,
    ensures
        remove::attempts_flow(root, worktrees.drop_last(), force, replies).0 is Ok,
        attempt_at(root, worktrees, force, replies, worktrees.len() - 1).0 is Ok,
        remove::attempts_flow(root, worktrees, force, replies).0->Ok_0 == 0 <==> {
            &&& remove::attempts_flow(root, worktrees.drop_last(), force, replies).0->Ok_0 == 0
            &&& attempt_at(root, worktrees, force, replies, worktrees.len() - 1).0->Ok_0
        },
{
    reveal(attempt_at);
    assert(worktrees.take(worktrees.len() - 1) =~= worktrees.drop_last());
}

/// An attempt does not depend on the worktrees that come later.
proof fn lemma_earlier_attempt(
    root: Seq<char>,
    worktrees: Seq<ManagedView>,
    force: bool,
    replies: Seq<ReplyView>,
    at: int,
)
    requires
        0 <= at < worktrees.len() - 1,
    ensures
        attempt_at(root, worktrees, force, replies, at) == attempt_at(
            root,
            worktrees.drop_last(),
            force,
            replies,
            at,
        ),
{
    reveal(attempt_at);
    assert(worktrees.drop_last().take(at) =~= worktrees.take(at));
}

/// The failures that are counted are the attempts that did not remove a worktree.
proof fn lemma_attempts_are_counted(
    root: Seq<char>,
    worktrees: Seq<ManagedView>,
    force: bool,
    replies: Seq<ReplyView>,
)
    requires
        remove::attempts_flow(root, worktrees, force, replies).0 is Ok,
    ensures
        forall|i: int|
            0 <= i < worktrees.len() ==> (#[trigger] attempt_at(
                root,
                worktrees,
                force,
                replies,
                i,
            )).0 is Ok,
        remove::attempts_flow(root, worktrees, force, replies).0->Ok_0 == 0 <==> forall|i: int|
            0 <= i < worktrees.len() ==> (#[trigger] attempt_at(
                root,
                worktrees,
                force,
                replies,
                i,
            )).0->Ok_0,
    decreases worktrees.len(),
{
    if worktrees.len() > 0 {
        let before = worktrees.drop_last();
        lemma_last_attempt(root, worktrees, force, replies);
        lemma_attempts_are_counted(root, before, force, replies);
        assert forall|i: int| 0 <= i < before.len() implies #[trigger] attempt_at(
            root,
            worktrees,
            force,
            replies,
            i,
        ) == attempt_at(root, before, force, replies, i) by {
            lemma_earlier_attempt(root, worktrees, force, replies, i);
        }
        assert forall|i: int| 0 <= i < before.len() implies attempt_at(
            root,
            worktrees,
            force,
            replies,
            i,
        ) == #[trigger] attempt_at(root, before, force, replies, i) by {
            lemma_earlier_attempt(root, worktrees, force, replies, i);
        }
    }
}

/// The worktrees of rows are among the listed ones.
proof fn lemma_picked_are_listed(worktrees: Seq<ManagedView>, lines: Seq<Seq<char>>)
    ensures
        clean::picked(worktrees, lines) matches Ok(list) ==> forall|i: int|
            0 <= i < list.len() ==> worktrees.contains(#[trigger] list[i]),
    decreases lines.len(),
{
    if lines.len() > 0 {
        lemma_picked_are_listed(worktrees, lines.drop_last());
        search::lemma_found(clean::rows_of(worktrees), clean::is_row(lines.last()));
    }
}

/// The worktrees of names are among the listed ones.
proof fn lemma_named_are_listed(worktrees: Seq<ManagedView>, names: Seq<Seq<char>>)
    ensures
        clean::all_named(worktrees, names) matches Ok(list) ==> forall|i: int|
            0 <= i < list.len() ==> worktrees.contains(#[trigger] list[i]),
    decreases names.len(),
{
    if names.len() > 0 {
        lemma_named_are_listed(worktrees, names.drop_last());
        search::lemma_found(worktrees, clean::is_named(names.last()));
    }
}

/// Law: only listed worktrees are approved for removal.
pub proof fn law_only_listed_worktrees_are_approved(
    directory: Seq<char>,
    worktrees: Seq<ManagedView>,
    names: Seq<Seq<char>>,
    force: bool,
    replies: Seq<ReplyView>,
)
    ensures
        clean::approve_flow(directory, worktrees, names, force, replies).0 matches Ok(list)
            ==> forall|i: int| 0 <= i < list.len() ==> worktrees.contains(#[trigger] list[i]),
{
    lemma_named_are_listed(worktrees, names);
    if names.len() == 0 {
        if let (Ok(true), rest) = select::terminal_flow(replies) {
            if let (Ok(current), rest1) = clean::canonical_flow(directory, rest) {
                let position = clean::worktree_position(
                    worktrees,
                    clean::around(worktrees, current),
                );
                if let (Ok(Some(written)), _) = select::selector_flow(
                    clean::worktree_wording(),
                    clean::worktree_selector_arguments(position),
                    text::each_ended(clean::rows_of(worktrees), "\n"@),
                    rest1,
                ) {
                    lemma_picked_are_listed(worktrees, text::lines_of(written));
                }
            }
        }
    }
}

/// An unknown name is the failure of all.
proof fn lemma_unknown_name(worktrees: Seq<ManagedView>, names: Seq<Seq<char>>, at: int)
    requires
        0 <= at < names.len(),
        clean::named(worktrees, names[at]) is Err,
    ensures
        clean::all_named(worktrees, names) is Err,
    decreases names.len(),
{
    if at < names.len() - 1 {
        assert(names.drop_last()[at] == names[at]);
        lemma_unknown_name(worktrees, names.drop_last(), at);
    }
}

/// What a clean-up has listed when it turns to what to remove: the root of the main work tree, the
/// worktrees that stand in the directory for worktrees, and the replies that are left.
pub open spec fn listed(directory: Seq<char>, replies: Seq<ReplyView>) -> Flow<
    (Seq<char>, Seq<ManagedView>),
> {
    match git::main_root_flow(directory, replies) {
        (Err(halt), rest) => (Err(halt), rest),
        (Ok(root), rest) => match listing::prune_flow(root, rest) {
            (Err(halt), rest) => (Err(halt), rest),
            (Ok(_), rest) => match listing::managed_flow(root, rest) {
                (Err(halt), rest) => (Err(halt), rest),
                (Ok(worktrees), rest) => (Ok((root, worktrees)), rest),
            },
        },
    }
}

/// Law: where one of the names is that of no listed worktree, a clean-up fails as soon as it has
/// listed them. Nothing is removed, whatever the other names are.
pub proof fn law_an_unknown_name_removes_nothing(
    directory: Seq<char>,
    names: Seq<Seq<char>>,
    force: bool,
    replies: Seq<ReplyView>,
    root: Seq<char>,
    worktrees: Seq<ManagedView>,
    at: int,
)
    requires
        listed(directory, replies).0 == Ok::<(Seq<char>, Seq<ManagedView>), HaltView>(
            (root, worktrees),
        ),
        0 <= at < names.len(),
        clean::named(worktrees, names[at]) is Err,
    ensures
        clean::clean_flow(directory, names, force, replies).0 matches Err(HaltView::Failed(_)),
        clean::clean_flow(directory, names, force, replies).1 == listed(directory, replies).1,
{
    lemma_unknown_name(worktrees, names, at);
}

/// Law: without a terminal a clean-up needs names, and fails where it has none.
pub proof fn law_a_clean_up_needs_names_or_a_terminal(
    directory: Seq<char>,
    force: bool,
    replies: Seq<ReplyView>,
)
    requires
        listed(directory, replies).0 is Ok,
        listed(directory, replies).0->Ok_0.1.len() > 0,
        listed(directory, replies).1.len() > 0,
        listed(directory, replies).1[0] == ReplyView::Answer(false),
    ensures
        clean::clean_flow(directory, Seq::empty(), force, replies) == host::failed::<()>(
            "cannot select worktrees without a terminal; pass --name to choose one"@,
            listed(directory, replies).1.drop_first(),
        ),
{
}

/// Law: without a terminal nothing is asked and the removal goes on; at a terminal it goes on
/// only if the answer is `y` or `Y`, with or without white space around it.
pub proof fn law_removal_needs_a_yes(
    worktrees: Seq<ManagedView>,
    force: bool,
    replies: Seq<ReplyView>,
)
    ensures
        replies.len() > 0 && replies[0] == ReplyView::Answer(false) ==> clean::confirm_flow(
            worktrees,
            force,
            replies,
        ) == (Ok::<bool, HaltView>(true), replies.drop_first()),
        replies.len() > 0 && replies[0] == ReplyView::Answer(true) && clean::confirm_flow(
            worktrees,
            force,
            replies,
        ).0 == Ok::<bool, HaltView>(true) ==> exists|i: int|
            1 <= i < replies.len() && (#[trigger] replies[i] matches ReplyView::Text(answer)
                && (text::trimmed(answer) == seq!['y'] || text::trimmed(answer) == seq!['Y'])),
{
    reveal_strlit("y");
    reveal_strlit("Y");
    assert("y"@ =~= seq!['y']);
    assert("Y"@ =~= seq!['Y']);
    if replies.len() > 0 && replies[0] == ReplyView::Answer(true) {
        let asked = replies.drop_first();
        lemma_paths_suffix(worktrees, asked);
        if let (Ok(_), rest) = clean::paths_flow(worktrees, asked) {
            let count = asked.len() - rest.len();
            assert(rest =~= asked.skip(count));
            if rest.len() > 1 {
                assert(rest.drop_first()[0] == replies[count + 2]);
            }
        }
    }
}

/// What the lines with paths leave of the replies is the end of them.
proof fn lemma_paths_suffix(worktrees: Seq<ManagedView>, replies: Seq<ReplyView>)
    ensures
        clean::paths_flow(worktrees, replies).1.len() <= replies.len(),
        clean::paths_flow(worktrees, replies).1 == replies.skip(
            replies.len() - clean::paths_flow(worktrees, replies).1.len(),
        ),
    decreases worktrees.len(),
{
    assert(replies.skip(0) =~= replies);
    if worktrees.len() > 0 {
        if let (Ok(_), rest) = remove::print_flow(worktrees[0].path, replies) {
            lemma_paths_suffix(worktrees.drop_first(), rest);
            let end = clean::paths_flow(worktrees.drop_first(), rest).1;
            assert(rest.skip(rest.len() - end.len()) =~= replies.skip(
                replies.len() - end.len(),
            ));
        }
    }
}

/// Law: what the user does not confirm is not approved, so nothing is removed.
pub proof fn law_unconfirmed_removal_removes_nothing(
    root: Seq<char>,
    directory: Seq<char>,
    worktrees: Seq<ManagedView>,
    names: Seq<Seq<char>>,
    force: bool,
    replies: Seq<ReplyView>,
    selected: Seq<ManagedView>,
)
    requires
        clean::select_flow(directory, worktrees, names, replies).0 == Ok::<
            Seq<ManagedView>,
            HaltView,
        >(selected),
        selected.len() > 0,
        clean::confirm_flow(
            selected,
            force,
            clean::select_flow(directory, worktrees, names, replies).1,
        ).0 == Ok::<bool, HaltView>(false),
    ensures
        ({
            let (approved, rest) = clean::approve_flow(
                directory,
                worktrees,
                names,
                force,
                replies,
            );
            &&& approved == Ok::<Seq<ManagedView>, HaltView>(Seq::empty())
            &&& remove::removals_flow(root, Seq::empty(), force, rest) == (
                Ok::<(), HaltView>(()),
                rest,
            )
        }),
{
}

/// The worktrees of records stand in the directory under their names.
proof fn lemma_managed_records(records: Seq<Seq<char>>, directory: Seq<char>)
    ensures
        forall|i: int|
            0 <= i < listing::managed_records(records, directory).len() ==> path::child_name(
                (#[trigger] listing::managed_records(records, directory)[i]).path,
                directory,
            ) == Some(listing::managed_records(records, directory)[i].name),
    decreases records.len(),
{
    if records.len() > 0 {
        lemma_managed_records(records.drop_last(), directory);
    }
}

/// Law: every worktree in the list of managed ones stands directly in the directory for
/// worktrees of the main work tree, under its name. The main work tree itself and worktrees
/// elsewhere are not among them.
pub proof fn law_managed_worktrees_stand_in_their_directory(listed: Seq<char>, at: int)
    requires
        0 <= at < listing::managed_in(listed).len(),
    ensures
        listing::record_path(text::parts_of(listed, "\n\n"@)[0]) is Some,
        ({
            let root = listing::record_path(text::parts_of(listed, "\n\n"@)[0])->0;
            let worktree = listing::managed_in(listed)[at];
            &&& path::components_of(worktree.path) == path::components_of(root).push(
                ComponentView::Normal(listing::WORKTREE_DIRECTORY_NAME@),
            ).push(ComponentView::Normal(worktree.name))
            &&& path::components_of(worktree.path) != path::components_of(root)
        }),
{
    let records = text::parts_of(listed, "\n\n"@);
    let root = listing::record_path(records[0])->0;
    let directory = listing::directory_of(root);
    let worktree = listing::managed_in(listed)[at];
    let name = listing::WORKTREE_DIRECTORY_NAME@;
    lemma_managed_records(records.drop_first(), directory);
    listing::lemma_directory_name_is_plain();
    path::law_join_appends_a_component(root, name);
    let components = path::components_of(worktree.path);
    assert(components =~= components.drop_last().push(components.last()));
    assert(components.len() == path::components_of(root).len() + 2);
}

/// A request to Git for the removal of a worktree.
pub open spec fn removes(request: RequestView, path: Seq<char>) -> bool {
    request matches RequestView::Git { arguments, .. } && (arguments == seq![
        "worktree"@,
        "remove"@,
        "--force"@,
        path,
    ] || arguments == seq!["worktree"@, "remove"@, path])
}

/// The other commands of Git are no removal.
proof fn lemma_other_commands(directory: Seq<char>, arguments: Seq<Seq<char>>, path: Seq<char>)
    requires
        arguments.len() > 1,
        arguments[0] != "worktree"@ || arguments[1] == "prune"@ || arguments[1] == "list"@,
    ensures
        !removes(RequestView::Git { directory, arguments }, path),
{
    reveal_strlit("remove");
    reveal_strlit("prune");
    reveal_strlit("list");
    assert("remove"@.len() != "prune"@.len());
    assert("remove"@.len() != "list"@.len());
    assert(remove::remove_arguments(path, true)[1] == "remove"@);
    assert(remove::remove_arguments(path, false)[1] == "remove"@);
    assert(remove::remove_arguments(path, true)[0] == "worktree"@);
    assert(remove::remove_arguments(path, false)[0] == "worktree"@);
}

/// The paths in two requests for the removal of a worktree are the same where the requests are.
proof fn lemma_same_removal(root: Seq<char>, own: Seq<char>, force: bool, path: Seq<char>)
    requires
        removes(
            RequestView::Git { directory: root, arguments: remove::remove_arguments(own, force) },
            path,
        ),
    ensures
        own == path,
{
    assert(remove::remove_arguments(own, force).last() == own);
    assert(remove::remove_arguments(path, true).last() == path);
    assert(remove::remove_arguments(path, false).last() == path);
}

/// A worktree's removal asks Git to remove that worktree and no other.
proof fn lemma_attempt_removes_its_own(
    root: Seq<char>,
    worktree: ManagedView,
    force: bool,
    replies: Seq<ReplyView>,
    request: RequestView,
    path: Seq<char>,
)
    requires
        remove::attempt_flow(root, worktree, force, replies).0 == Err::<bool, HaltView>(
            HaltView::Pending(request),
        ),
        removes(request, path),
    ensures
        worktree.path == path,
{
    reveal_strlit("worktree");
    reveal_strlit("rev-parse");
    reveal_strlit("branch");
    assert("worktree"@.len() != "rev-parse"@.len());
    assert("worktree"@.len() != "branch"@.len());
    lemma_other_commands(
        root,
        seq!["rev-parse"@, "--git-path"@, setup::BACKGROUND_SETUP_DIRECTORY@],
        path,
    );
    if let Some(branch) = worktree.branch {
        lemma_other_commands(root, seq!["branch"@, "-d"@, branch], path);
        lemma_other_commands(root, seq!["branch"@, "-D"@, branch], path);
    }
    if remove::remove_directory_flow(root, worktree.path, force, replies).0 is Err {
        lemma_same_removal(root, worktree.path, force, path);
    }
}

/// A removal of worktrees asks Git to remove one of them.
proof fn lemma_attempts_remove_their_own(
    root: Seq<char>,
    worktrees: Seq<ManagedView>,
    force: bool,
    replies: Seq<ReplyView>,
    request: RequestView,
    path: Seq<char>,
)
    requires
        remove::attempts_flow(root, worktrees, force, replies).0 == Err::<nat, HaltView>(
            HaltView::Pending(request),
        ),
        removes(request, path),
    ensures
        exists|i: int| 0 <= i < worktrees.len() && (#[trigger] worktrees[i]).path == path,
    decreases worktrees.len(),
{
    if worktrees.len() > 0 {
        let before = worktrees.drop_last();
        let (earlier, rest) = remove::attempts_flow(root, before, force, replies);
        if earlier is Err {
            lemma_attempts_remove_their_own(root, before, force, replies, request, path);
            let i = choose|i: int| 0 <= i < before.len() && (#[trigger] before[i]).path == path;
            assert(worktrees[i] == before[i]);
        } else {
            lemma_attempt_removes_its_own(root, worktrees.last(), force, rest, request, path);
            assert(worktrees[worktrees.len() - 1].path == path);
        }
    }
}

/// The questions before a removal are no removal.
proof fn lemma_listing_removes_nothing(
    directory: Seq<char>,
    replies: Seq<ReplyView>,
    request: RequestView,
    path: Seq<char>,
)
    requires
        listed(directory, replies).0 == Err::<(Seq<char>, Seq<ManagedView>), HaltView>(
            HaltView::Pending(request),
        ),
    ensures
        !removes(request, path),
{
    reveal_strlit("worktree");
    reveal_strlit("rev-parse");
    assert("worktree"@.len() != "rev-parse"@.len());
    lemma_other_commands(directory, seq!["rev-parse"@, "--show-toplevel"@], path);
    lemma_other_commands(directory, seq!["rev-parse"@, "--is-bare-repository"@], path);
    if let (Ok(top), rest) = git::discover_flow(directory, replies) {
        lemma_other_commands(
            top,
            seq!["rev-parse"@, "--path-format=absolute"@, "--git-common-dir"@],
            path,
        );
    }
    if let (Ok(root), rest) = git::main_root_flow(directory, replies) {
        lemma_other_commands(root, seq!["worktree"@, "prune"@], path);
        lemma_other_commands(root, seq!["worktree"@, "list"@, "--porcelain"@], path);
    }
}

/// Lines with paths are no request to Git.
proof fn lemma_paths_ask_no_git(worktrees: Seq<ManagedView>, replies: Seq<ReplyView>)
    ensures
        clean::paths_flow(worktrees, replies).0 matches Err(HaltView::Pending(request))
            ==> !(request is Git),
    decreases worktrees.len(),
{
    if worktrees.len() > 0 {
        if let (Ok(_), rest) = remove::print_flow(worktrees[0].path, replies) {
            lemma_paths_ask_no_git(worktrees.drop_first(), rest);
        }
    }
}

/// The approval of a removal asks nothing of Git.
pub proof fn lemma_approval_asks_no_git(
    directory: Seq<char>,
    worktrees: Seq<ManagedView>,
    names: Seq<Seq<char>>,
    force: bool,
    replies: Seq<ReplyView>,
)
    ensures
        clean::approve_flow(directory, worktrees, names, force, replies).0 matches Err(
            HaltView::Pending(request),
        ) ==> !(request is Git),
{
    if let (Ok(selected), rest) = clean::select_flow(directory, worktrees, names, replies) {
        if let (Ok(_), rest1) = select::terminal_flow(rest) {
            lemma_paths_ask_no_git(selected, rest1);
        }
    }
}

/// Law: whatever worktree a clean-up asks Git to remove is one of those that it listed and that
/// were approved.
pub proof fn law_only_listed_worktrees_are_removed(
    directory: Seq<char>,
    names: Seq<Seq<char>>,
    force: bool,
    replies: Seq<ReplyView>,
    request: RequestView,
    path: Seq<char>,
)
    requires
        clean::clean_flow(directory, names, force, replies).0 == Err::<(), HaltView>(
            HaltView::Pending(request),
        ),
        removes(request, path),
    ensures
        listed(directory, replies).0 is Ok,
        ({
            let worktrees = listed(directory, replies).0->Ok_0.1;
            let rest = listed(directory, replies).1;
            clean::approve_flow(directory, worktrees, names, force, rest).0 matches Ok(approved)
                && exists|i: int|
                0 <= i < approved.len() && (#[trigger] approved[i]).path == path
                    && worktrees.contains(approved[i])
        }),
{
    match listed(directory, replies) {
        (Err(_), _) => {
            lemma_listing_removes_nothing(directory, replies, request, path);
        },
        (Ok((root, worktrees)), rest) => {
            let (approval, rest1) = clean::approve_flow(directory, worktrees, names, force, rest);
            if let Ok(approved) = approval {
                lemma_attempts_remove_their_own(root, approved, force, rest1, request, path);
                law_only_listed_worktrees_are_approved(directory, worktrees, names, force, rest);
                let i = choose|i: int|
                    0 <= i < approved.len() && (#[trigger] approved[i]).path == path;
                assert(worktrees.contains(approved[i]));
            } else {
                lemma_approval_asks_no_git(directory, worktrees, names, force, rest);
            }
        },
    }
}

/// Law: a clean-up fails outside a work tree.
pub proof fn law_a_clean_up_needs_a_work_tree(
    directory: Seq<char>,
    names: Seq<Seq<char>>,
    force: bool,
    replies: Seq<ReplyView>,
)
    requires
        replies.len() > 0,
        replies[0] is Failed || (replies[0] is Ended && !replies[0]->Ended_0.succeeded()),
    ensures
        clean::clean_flow(directory, names, force, replies) == host::failed::<()>(
            "current directory is not inside a Git work tree"@,
            replies.drop_first(),
        ),
{
}

/// Law: that Git keeps the branch of a worktree is no failure. Once the directory and the files of
/// the worker are removed, the removal succeeds however Git's deletion of the branch ends.
pub proof fn law_a_kept_branch_is_no_failure(
    root: Seq<char>,
    worktree: ManagedView,
    force: bool,
    replies: Seq<ReplyView>,
)
    requires
        remove::remove_directory_flow(root, worktree.path, force, replies).0 is Ok,
        ({
            let rest = remove::remove_directory_flow(root, worktree.path, force, replies).1;
            let (files, rest) = setup::remove_artifacts_flow(root, worktree.name, rest);
            files is Ok && rest.len() > 0 && rest[0] is Ended
        }),
    ensures
        remove::remove_flow(root, worktree, force, replies).0 is Ok,
{
}

} // verus!
