//! What the program asks of Git, word for word, and what it makes of each answer.

use vstd::prelude::*;
use crate::git;
use crate::host;
use crate::host::{Flow, HaltView, OutputView, ReplyView, RequestView};
use crate::laws::{paths, texts};
use crate::listing;
use crate::model::BaseView;
use crate::path;
use crate::text;

verus! {

/// A part of the program that needs the reply to a request, with these replies left.
pub open spec fn waits<T>(flow: Flow<T>, request: RequestView, replies: Seq<ReplyView>) -> bool {
    flow.0 == Err::<T, HaltView>(HaltView::Pending(request)) && flow.1 == replies
}

/// A part of the program that came to a value, with these replies left.
pub open spec fn gives<T>(flow: Flow<T>, value: T, replies: Seq<ReplyView>) -> bool {
    flow.0 == Ok::<T, HaltView>(value) && flow.1 == replies
}

/// A part of the program that failed, with these replies left.
pub open spec fn fails<T>(flow: Flow<T>, message: Seq<char>, replies: Seq<ReplyView>) -> bool {
    flow.0 == Err::<T, HaltView>(HaltView::Failed(message)) && flow.1 == replies
}

/// The next reply is none to the request.
pub open spec fn unanswered(request: RequestView, replies: Seq<ReplyView>) -> bool {
    replies.len() == 0 || !host::fits(request, replies[0])
}

/// The next reply tells that a process ended with zero.
pub open spec fn well(replies: Seq<ReplyView>) -> bool {
    replies.len() > 0 && replies[0] is Ended && replies[0]->Ended_0.code == Some(0i32)
}

/// The next reply tells that a process ended with something else.
pub open spec fn badly(replies: Seq<ReplyView>) -> bool {
    replies.len() > 0 && replies[0] is Ended && replies[0]->Ended_0.code != Some(0i32)
}

/// The next reply tells that a request failed.
pub open spec fn unable(replies: Seq<ReplyView>) -> bool {
    replies.len() > 0 && replies[0] is Failed
}

/// What the process of the next reply wrote, without the white space around it.
pub open spec fn said(replies: Seq<ReplyView>) -> Seq<char> {
    text::trimmed(git::utf8_lossy(replies[0]->Ended_0.stdout))
}

/// What the process of the next reply wrote to its standard error, without the white space around
/// it.
pub open spec fn complained(replies: Seq<ReplyView>) -> Seq<char> {
    text::trimmed(git::utf8_lossy(replies[0]->Ended_0.stderr))
}

/// Git in a directory.
pub open spec fn asked(directory: Seq<char>, arguments: Seq<Seq<char>>) -> RequestView {
    RequestView::Git { directory, arguments }
}

/// The replies without the next.
pub open spec fn after(replies: Seq<ReplyView>) -> Seq<ReplyView> {
    replies.skip(1)
}

/// The replies without the next are the others.
pub broadcast proof fn lemma_after(replies: Seq<ReplyView>)
    requires
        replies.len() > 0,
    ensures
        #[trigger] replies.drop_first() == after(replies),
{
    assert(replies.drop_first() =~= replies.skip(1));
}

/// Law: a request takes the next reply where that can be its reply, and waits otherwise.
pub proof fn law_a_request_takes_the_next_reply(request: RequestView, replies: Seq<ReplyView>)
    ensures
        unanswered(request, replies) ==> waits(
            host::ask_flow(request, replies),
            request,
            replies,
        ),
        !unanswered(request, replies) ==> gives(
            host::ask_flow(request, replies),
            replies[0],
            replies.skip(1),
        ),
{
    broadcast use lemma_after;

}

/// Law: which replies each request can have. Whatever the world makes of a request, one of them
/// tells it.
pub proof fn law_which_replies_fit(request: RequestView, reply: ReplyView)
    ensures
        request is Git || request is GitAttached || request is Shell || request is AwaitSelector
            ==> (host::fits(request, reply) <==> reply is Ended || reply is Failed),
        request is Exists || request is InputIsTerminal ==> (host::fits(request, reply)
            <==> reply is Answer),
        request is Read ==> (host::fits(request, reply) <==> reply is Text || reply is Absent
            || reply is Failed),
        request is Write || request is CreateDirectory || request is CreateLog
            || request is ShareLog || request is Prompt ==> (host::fits(request, reply)
            <==> reply is Done || reply is Failed),
        request is Remove || request is StartSelector || request is FeedSelector ==> (host::fits(
            request,
            reply,
        ) <==> reply is Done || reply is Absent || reply is Failed),
        request is ParseConfig ==> (host::fits(request, reply) <==> reply is Config
            || reply is Failed),
        request is StartWorker ==> (host::fits(request, reply) <==> reply is Started
            || reply is Failed),
        request is CurrentDirectory || request is CurrentExecutable || request is Canonicalize
            || request is ReadLine ==> (host::fits(request, reply) <==> reply is Text
            || reply is Failed),
        request is Print || request is Report ==> (host::fits(request, reply) <==> reply is Done),
        request is RandomName ==> (host::fits(request, reply) <==> reply is Text && {
            let name = reply->Text_0;
            name.len() == 10 && forall|i: int|
                0 <= i < name.len() ==> 'a' <= #[trigger] name[i] <= 'z' || '0' <= name[i] <= '9'
        }),
{
}

/// Law: Git is run in the directory with the arguments; its output counts whatever its exit code,
/// and that it did not start is told with the arguments and the error.
pub proof fn law_git_is_run(
    directory: Seq<char>,
    arguments: Seq<Seq<char>>,
    replies: Seq<ReplyView>,
)
    ensures
        ({
            let flow = git::git_status_flow(directory, arguments, replies);
            &&& unanswered(asked(directory, arguments), replies) ==> waits(
                flow,
                asked(directory, arguments),
                replies,
            )
            &&& well(replies) || badly(replies) ==> gives(
                flow,
                replies[0]->Ended_0,
                after(replies),
            )
            &&& unable(replies) ==> fails(
                flow,
                "failed to start git "@ + text::joined(arguments, " "@) + ": "@
                    + replies[0]->Failed_0,
                after(replies),
            )
        }),
{
    broadcast use lemma_after;

}

/// Why Git gave no answer.
pub open spec fn no_answer(arguments: Seq<Seq<char>>, replies: Seq<ReplyView>) -> Seq<char> {
    if unable(replies) {
        "failed to start git "@ + text::joined(arguments, " "@) + ": "@ + replies[0]->Failed_0
    } else {
        "git "@ + text::joined(arguments, " "@) + " failed: "@ + complained(replies)
    }
}

/// Law: what Git says counts where it ends with zero; otherwise the failure tells the arguments
/// and what Git complained of.
pub proof fn law_git_is_asked(
    directory: Seq<char>,
    arguments: Seq<Seq<char>>,
    replies: Seq<ReplyView>,
)
    ensures
        ({
            let flow = git::git_output_flow(directory, arguments, replies);
            let maybe = git::said_flow(directory, arguments, replies);
            &&& unanswered(asked(directory, arguments), replies) ==> waits(
                flow,
                asked(directory, arguments),
                replies,
            ) && waits(maybe, asked(directory, arguments), replies)
            &&& well(replies) ==> gives(flow, said(replies), after(replies)) && gives(
                maybe,
                Some(said(replies)),
                after(replies),
            )
            &&& badly(replies) || unable(replies) ==> fails(
                flow,
                no_answer(arguments, replies),
                after(replies),
            ) && gives(maybe, None, after(replies))
        }),
{
    broadcast use lemma_after;

}

/// Law: the path of a file among Git's own is what `git rev-parse --git-path` says, read from the
/// directory that Git ran in.
pub proof fn law_a_path_among_gits_own(
    directory: Seq<char>,
    name: Seq<char>,
    replies: Seq<ReplyView>,
)
    ensures
        ({
            let flow = git::git_path_flow(directory, name, replies);
            let arguments = seq!["rev-parse"@, "--git-path"@, name];
            &&& unanswered(asked(directory, arguments), replies) ==> waits(
                flow,
                asked(directory, arguments),
                replies,
            )
            &&& well(replies) ==> gives(
                flow,
                if path::stands_alone(said(replies), directory) {
                    said(replies)
                } else {
                    path::join_of(directory, said(replies))
                },
                after(replies),
            )
            &&& badly(replies) || unable(replies) ==> fails(
                flow,
                no_answer(arguments, replies),
                after(replies),
            )
        }),
{
    broadcast use lemma_after;

}

/// Law: the work tree of a directory is what `git rev-parse --show-toplevel` says there, unless Git
/// says that the repository is bare.
pub proof fn law_the_work_tree_is_asked_for(directory: Seq<char>, replies: Seq<ReplyView>)
    ensures
        ({
            let flow = git::discover_flow(directory, replies);
            let first = asked(directory, seq!["rev-parse"@, "--show-toplevel"@]);
            let bare = seq!["rev-parse"@, "--is-bare-repository"@];
            let rest = after(replies);
            &&& unanswered(first, replies) ==> waits(flow, first, replies)
            &&& badly(replies) || unable(replies) ==> fails(
                flow,
                "current directory is not inside a Git work tree"@,
                rest,
            )
            &&& well(replies) ==> {
                &&& unanswered(asked(directory, bare), rest) ==> waits(
                    flow,
                    asked(directory, bare),
                    rest,
                )
                &&& badly(rest) || unable(rest) ==> fails(
                    flow,
                    no_answer(bare, rest),
                    after(rest),
                )
                &&& well(rest) && said(rest) == "true"@ ==> fails(
                    flow,
                    "current directory is inside a bare Git repository"@,
                    after(rest),
                )
                &&& well(rest) && said(rest) != "true"@ ==> gives(
                    flow,
                    said(replies),
                    after(rest),
                )
            }
        }),
{
    broadcast use lemma_after;

}

/// Law: the main work tree is the parent of the Git directory that all work trees share, which
/// `git rev-parse --git-common-dir` tells in the work tree.
pub proof fn law_the_main_work_tree_is_asked_for(directory: Seq<char>, replies: Seq<ReplyView>)
    ensures
        ({
            let flow = git::main_root_flow(directory, replies);
            let arguments = seq!["rev-parse"@, "--path-format=absolute"@, "--git-common-dir"@];
            &&& git::discover_flow(directory, replies).0 matches Err(halt) ==> flow.0 == Err::<
                Seq<char>,
                HaltView,
            >(halt) && flow.1 == git::discover_flow(directory, replies).1
            &&& git::discover_flow(directory, replies) matches (Ok(root), rest) ==> {
                &&& unanswered(asked(root, arguments), rest) ==> waits(
                    flow,
                    asked(root, arguments),
                    rest,
                )
                &&& badly(rest) || unable(rest) ==> fails(
                    flow,
                    no_answer(arguments, rest),
                    after(rest),
                )
                &&& well(rest) ==> match path::parent_of(said(rest)) {
                    Some(parent) => gives(flow, parent, after(rest)),
                    None => fails(
                        flow,
                        "Git directory '"@ + said(rest) + "' has no parent work tree"@,
                        after(rest),
                    ),
                }
            }
        }),
{
    broadcast use lemma_after;

}

/// Law: what the primary checkout of a work tree is asked for with: first the Git directory that
/// all work trees share; where another directory holds it, the work tree's own Git directory; and
/// where that is another one, whether the holder is a checkout.
pub proof fn law_the_primary_checkout_is_asked_for(root: Seq<char>, replies: Seq<ReplyView>)
    ensures
        ({
            let flow = git::primary_flow(root, replies);
            let shared = asked(
                root,
                seq!["rev-parse"@, "--path-format=absolute"@, "--git-common-dir"@],
            );
            let own = asked(root, seq!["rev-parse"@, "--path-format=absolute"@, "--git-dir"@]);
            let rest = after(replies);
            &&& unanswered(shared, replies) ==> waits(flow, shared, replies)
            &&& badly(replies) || unable(replies) ==> gives(flow, root, rest)
            &&& well(replies) ==> match path::parent_of(said(replies)) {
                None => gives(flow, root, rest),
                Some(holder) => {
                    let held = path::components_of(said(replies)) == path::components_of(
                        holder,
                    ).push(path::ComponentView::Normal(".git"@));
                    let top = asked(holder, seq!["rev-parse"@, "--show-toplevel"@]);
                    if !held || path::components_of(holder) == path::components_of(root) {
                        gives(flow, root, rest)
                    } else {
                        &&& unanswered(own, rest) ==> waits(flow, own, rest)
                        &&& badly(rest) || unable(rest) ==> gives(flow, root, after(rest))
                        &&& well(rest) && path::components_of(said(rest)) == path::components_of(
                            said(replies),
                        ) ==> gives(flow, root, after(rest))
                        &&& well(rest) && path::components_of(said(rest)) != path::components_of(
                            said(replies),
                        ) ==> {
                            let last = after(rest);
                            &&& unanswered(top, last) ==> waits(flow, top, last)
                            &&& badly(last) || unable(last) ==> gives(flow, root, after(last))
                            &&& well(last) ==> gives(
                                flow,
                                if path::components_of(said(last)) == path::components_of(
                                    holder,
                                ) {
                                    holder
                                } else {
                                    root
                                },
                                after(last),
                            )
                        }
                    }
                },
            }
        }),
{
    broadcast use lemma_after;

    if well(replies) {
        if let Some(holder) = path::parent_of(said(replies)) {
            paths::law_places(said(replies), holder, ".git"@, Seq::empty());
        }
    }
}

/// Law: the worktrees that are gone are pruned with `git worktree prune` in the main work tree,
/// and the others listed with `git worktree list --porcelain` there.
pub proof fn law_worktrees_are_pruned_and_listed(root: Seq<char>, replies: Seq<ReplyView>)
    ensures
        ({
            let pruned = listing::prune_flow(root, replies);
            let prune = seq!["worktree"@, "prune"@];
            &&& unanswered(asked(root, prune), replies) ==> waits(
                pruned,
                asked(root, prune),
                replies,
            )
            &&& well(replies) ==> gives(pruned, (), after(replies))
            &&& badly(replies) || unable(replies) ==> fails(
                pruned,
                no_answer(prune, replies),
                after(replies),
            )
        }),
        ({
            let listed = listing::managed_flow(root, replies);
            let list = seq!["worktree"@, "list"@, "--porcelain"@];
            &&& unanswered(asked(root, list), replies) ==> waits(
                listed,
                asked(root, list),
                replies,
            )
            &&& well(replies) ==> gives(
                listed,
                listing::managed_in(said(replies)),
                after(replies),
            )
            &&& badly(replies) || unable(replies) ==> fails(
                listed,
                no_answer(list, replies),
                after(replies),
            )
        }),
{
    broadcast use lemma_after;

}

/// Law: the local branches are the lines that `git for-each-ref` says of `refs/heads` in the work
/// tree, in the order of their last commits; nothing else is asked for.
pub proof fn law_branches_are_listed(directory: Seq<char>, replies: Seq<ReplyView>)
    ensures
        ({
            let flow = listing::bases_flow(directory, replies);
            let arguments = seq![
                "for-each-ref"@,
                "--sort=-committerdate"@,
                "--format=%(refname:short)"@,
                "refs/heads"@,
            ];
            &&& git::discover_flow(directory, replies).0 matches Err(halt) ==> flow.0 == Err::<
                Seq<BaseView>,
                HaltView,
            >(halt) && flow.1 == git::discover_flow(directory, replies).1
            &&& git::discover_flow(directory, replies) matches (Ok(root), rest) ==> {
                &&& unanswered(asked(root, arguments), rest) ==> waits(
                    flow,
                    asked(root, arguments),
                    rest,
                )
                &&& badly(rest) || unable(rest) ==> fails(
                    flow,
                    no_answer(arguments, rest),
                    after(rest),
                )
                &&& well(rest) ==> {
                    let lines = text::lines_of(said(rest));
                    &&& flow.0 is Ok
                    &&& flow.1 == after(rest)
                    &&& flow.0->Ok_0.len() == lines.len()
                    &&& forall|i: int|
                        0 <= i < lines.len() ==> #[trigger] flow.0->Ok_0[i]
                            == BaseView::LocalBranch(lines[i])
                }
            }
        }),
{
    broadcast use lemma_after;

}

/// Law: the branch that is checked out is what `git symbolic-ref` says of the head; there is none
/// where it ends with one.
pub proof fn law_the_current_branch_is_asked_for(directory: Seq<char>, replies: Seq<ReplyView>)
    ensures
        ({
            let flow = listing::current_base_flow(directory, replies);
            let arguments = seq!["symbolic-ref"@, "--quiet"@, "--short"@, "HEAD"@];
            &&& unanswered(asked(directory, arguments), replies) ==> waits(
                flow,
                asked(directory, arguments),
                replies,
            )
            &&& well(replies) ==> gives(
                flow,
                Some(BaseView::LocalBranch(said(replies))),
                after(replies),
            )
            &&& badly(replies) && replies[0]->Ended_0.code == Some(1i32) ==> gives(
                flow,
                None,
                after(replies),
            )
            &&& badly(replies) && replies[0]->Ended_0.code != Some(1i32) ==> fails(
                flow,
                "failed to determine the checked-out branch: "@ + complained(replies),
                after(replies),
            )
            &&& unable(replies) ==> fails(flow, no_answer(arguments, replies), after(replies))
        }),
{
    broadcast use lemma_after;

}

/// Law: the message in what Git complains of is its first line without white space around it, and
/// without the words `fatal: ` that it starts with and then the words `error: `, however often they
/// stand there.
pub proof fn law_the_message_of_a_complaint(
    complaint: Seq<char>,
    fatal: nat,
    error: nat,
    message: Seq<char>,
)
    requires
        ({
            let lines = text::lines_of(complaint);
            let errors = texts::copies("error: "@, error) + message;
            &&& lines.len() > 0
            &&& text::trimmed(lines[0]) == texts::copies("fatal: "@, fatal) + errors
            &&& !("fatal: "@.is_prefix_of(errors))
            &&& !("error: "@.is_prefix_of(message))
        }),
    ensures
        git::message_of(complaint) == message,
        git::message_of(Seq::empty()) == Seq::<char>::empty(),
{
    reveal_strlit("fatal: ");
    reveal_strlit("error: ");
    let errors = texts::copies("error: "@, error) + message;
    texts::law_leading_copies_are_dropped("fatal: "@, fatal, errors);
    texts::law_leading_copies_are_dropped("error: "@, error, message);
    let none = Seq::<char>::empty();
    assert(text::lines_of(none) =~= Seq::empty());
    assert(none + none + none =~= none);
    texts::law_trimming_leaves_the_core(none, none, none);
    assert(text::without_leading(none, "fatal: "@) =~= none);
    assert(text::without_leading(none, "error: "@) =~= none);
}

/// Law: a process succeeded exactly where it ended with zero; what it says is its text without the
/// white space around it.
pub proof fn law_success_is_zero(output: OutputView)
    ensures
        git::trimmed_text(output.stdout) == text::trimmed(git::utf8_lossy(output.stdout)),
        output.succeeded() <==> output.code == Some(0i32),
{
}

/// Law: a Git directory is held by its parent exactly where it is called `.git`.
pub proof fn law_what_holds_a_git_directory(shared: Seq<char>)
    ensures
        match path::parent_of(shared) {
            None => git::holder_of(shared) is None,
            Some(parent) => git::holder_of(shared) == if path::components_of(shared)
                == path::components_of(parent).push(path::ComponentView::Normal(".git"@)) {
                Some(parent)
            } else {
                None
            },
        },
{
    if let Some(parent) = path::parent_of(shared) {
        paths::law_places(shared, parent, ".git"@, Seq::empty());
    }
}

} // verus!
