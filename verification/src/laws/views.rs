//! What the contracts see of each value: all of its fields, as they are.

use vstd::prelude::*;
use crate::clean;
use crate::cli::{Invocation, Subcommand, SubcommandView};
use crate::create::Site;
use crate::host;
use crate::host::{Halt, HaltView, Output, Reply, ReplyView, Request, RequestView};
use crate::model::{
    BackgroundSetup, BaseView, BranchOutcome, BranchView, ManagedView, ManagedWorktree,
    WorktreeBase, WorktreeConfig, WorktreeOutcome,
};
use crate::path::{Component, ComponentView};
use crate::select::Wording;

verus! {

/// Lists of texts that have the same texts in the same order.
pub open spec fn same_texts(list: Vec<String>, texts: Seq<Seq<char>>) -> bool {
    list@.len() == texts.len() && forall|i: int|
        0 <= i < texts.len() ==> (#[trigger] list@[i])@ == texts[i]
}

/// Law: what is seen of a request is all that it asks for.
pub proof fn law_what_is_seen_of_a_request(request: Request)
    ensures
        match request {
            Request::Git { directory, arguments } => {
                &&& request.deep_view() matches RequestView::Git { directory: d, arguments: a }
                &&& d == directory@ && same_texts(arguments, a)
            },
            Request::GitAttached { directory, arguments } => {
                &&& request.deep_view() matches RequestView::GitAttached {
                    directory: d,
                    arguments: a,
                }
                &&& d == directory@ && same_texts(arguments, a)
            },
            Request::Shell { directory, command, variable, value } => request.deep_view() == (
            RequestView::Shell {
                directory: directory@,
                command: command@,
                variable: variable@,
                value: value@,
            }),
            Request::Exists { path } => request.deep_view() == (RequestView::Exists {
                path: path@,
            }),
            Request::Read { path } => request.deep_view() == (RequestView::Read { path: path@ }),
            Request::Write { path, contents } => request.deep_view() == (RequestView::Write {
                path: path@,
                contents: contents@,
            }),
            Request::Remove { path } => request.deep_view() == (RequestView::Remove {
                path: path@,
            }),
            Request::CreateDirectory { path } => request.deep_view() == (
            RequestView::CreateDirectory { path: path@ }),
            Request::ParseConfig { contents } => request.deep_view() == (
            RequestView::ParseConfig { contents: contents@ }),
            Request::CreateLog { path } => request.deep_view() == (RequestView::CreateLog {
                path: path@,
            }),
            Request::ShareLog { path } => request.deep_view() == (RequestView::ShareLog {
                path: path@,
            }),
            Request::StartWorker { executable, arguments } => {
                &&& request.deep_view() matches RequestView::StartWorker {
                    executable: e,
                    arguments: a,
                }
                &&& e == executable@ && same_texts(arguments, a)
            },
            Request::CurrentDirectory => request.deep_view() is CurrentDirectory,
            Request::CurrentExecutable => request.deep_view() is CurrentExecutable,
            Request::Canonicalize { path } => request.deep_view() == (
            RequestView::Canonicalize { path: path@ }),
            Request::InputIsTerminal => request.deep_view() is InputIsTerminal,
            Request::RandomName => request.deep_view() is RandomName,
            Request::Print { line } => request.deep_view() == (RequestView::Print { line: line@ }),
            Request::Report { line } => request.deep_view() == (RequestView::Report {
                line: line@,
            }),
            Request::Prompt { question } => request.deep_view() == (RequestView::Prompt {
                question: question@,
            }),
            Request::ReadLine => request.deep_view() is ReadLine,
            Request::StartSelector { arguments } => {
                &&& request.deep_view() matches RequestView::StartSelector { arguments: a }
                &&& same_texts(arguments, a)
            },
            Request::FeedSelector { rows } => request.deep_view() == (RequestView::FeedSelector {
                rows: rows@,
            }),
            Request::AwaitSelector => request.deep_view() is AwaitSelector,
        },
{
}

/// Law: what is seen of a process that ended is all that is known of it.
pub proof fn law_what_is_seen_of_an_output(output: Output)
    ensures
        output.deep_view().code == output.code,
        output.deep_view().status == output.status@,
        output.deep_view().stdout == output.stdout@,
        output.deep_view().stderr == output.stderr@,
{
}

/// Law: what is seen of a configuration is every command in it.
pub proof fn law_what_is_seen_of_a_configuration(config: WorktreeConfig)
    ensures
        same_texts(config.setup_commands, config.deep_view().setup_commands),
        same_texts(
            config.background_setup_commands,
            config.deep_view().background_setup_commands,
        ),
{
}

/// Law: what is seen of a reply is all that it tells.
pub proof fn law_what_is_seen_of_a_reply(reply: Reply)
    ensures
        match reply {
            Reply::Done => reply.deep_view() is Done,
            Reply::Absent => reply.deep_view() is Absent,
            Reply::Failed(error) => reply.deep_view() == ReplyView::Failed(error@),
            Reply::Answer(answer) => reply.deep_view() == ReplyView::Answer(answer),
            Reply::Text(text) => reply.deep_view() == ReplyView::Text(text@),
            Reply::Ended(output) => reply.deep_view() == ReplyView::Ended(output.deep_view()),
            Reply::Config(config) => reply.deep_view() == ReplyView::Config(config.deep_view()),
            Reply::Started(process) => reply.deep_view() == ReplyView::Started(process),
        },
{
}

/// Law: what is seen of a result is its value, its failure or the request that it waits for.
pub proof fn law_what_is_seen_of_a_result<T: DeepView>(
    value: T,
    message: String,
    request: Request,
)
    ensures
        host::seen(Ok::<T, Halt>(value)) == Ok::<T::V, HaltView>(value.deep_view()),
        host::seen(Err::<T, Halt>(Halt::Failed(message))) == Err::<T::V, HaltView>(
            HaltView::Failed(message@),
        ),
        host::seen(Err::<T, Halt>(Halt::Pending(request))) == Err::<T::V, HaltView>(
            HaltView::Pending(request.deep_view()),
        ),
{
}

/// Law: a choice of worktrees is what it is meant to be exactly where it has the same worktrees, or
/// fails with the same message.
pub proof fn law_what_is_seen_of_a_choice(
    list: Vec<ManagedWorktree>,
    message: String,
    meant: Result<Seq<ManagedView>, Seq<char>>,
)
    ensures
        clean::chosen(Ok(list), meant) ==> meant is Ok && meant->Ok_0.len() == list@.len() && (
        forall|i: int|
            0 <= i < list@.len() ==> meant->Ok_0[i] == (#[trigger] list@[i]).deep_view()),
        clean::chosen(Err(message), meant) <==> meant == Err::<Seq<ManagedView>, Seq<char>>(
            message@,
        ),
{
}

/// Law: what is seen of a worktree is its name, its path and its branch.
pub proof fn law_what_is_seen_of_a_worktree(worktree: ManagedWorktree)
    ensures
        worktree.deep_view().name == worktree.name@,
        worktree.deep_view().path == worktree.path@,
        worktree.branch is None <==> worktree.deep_view().branch is None,
        worktree.branch matches Some(branch) ==> worktree.deep_view().branch == Some(branch@),
{
}

/// Law: what is seen of a base is whether it is a local branch, and which.
pub proof fn law_what_is_seen_of_a_base(branch: String)
    ensures
        WorktreeBase::OriginMain.deep_view() == BaseView::OriginMain,
        WorktreeBase::LocalBranch(branch).deep_view() == BaseView::LocalBranch(branch@),
{
}

/// Law: what is seen of a branch's fate is all that is known of it.
pub proof fn law_what_is_seen_of_a_branch(branch: String, reason: String)
    ensures
        BranchOutcome::NoBranch.deep_view() == BranchView::NoBranch,
        BranchOutcome::Deleted(branch).deep_view() == BranchView::Deleted(branch@),
        (BranchOutcome::Kept { branch, reason }).deep_view() == (BranchView::Kept {
            branch: branch@,
            reason: reason@,
        }),
{
}

/// Law: what is seen of the worker's part is all of it.
pub proof fn law_what_is_seen_of_a_setup(setup: BackgroundSetup)
    ensures
        setup.deep_view().repository_root == setup.repository_root@,
        setup.deep_view().worktree_path == setup.worktree_path@,
        same_texts(setup.commands, setup.deep_view().commands),
        setup.deep_view().log_path == setup.log_path@,
        setup.deep_view().status_path == setup.status_path@,
{
}

/// Law: what is seen of a creation is all that came of it.
pub proof fn law_what_is_seen_of_an_outcome(outcome: WorktreeOutcome)
    ensures
        outcome.deep_view().name == outcome.name@,
        outcome.deep_view().path == outcome.path@,
        outcome.deep_view().config_missing == outcome.config_missing,
        outcome.deep_view().setup_commands_run == outcome.setup_commands_run,
        outcome.background_setup is None <==> outcome.deep_view().background_setup is None,
        outcome.background_setup matches Some(setup) ==> outcome.deep_view().background_setup
            == Some(setup.deep_view()),
{
}

/// Law: what is seen of a repository is where it is, and its configuration.
pub proof fn law_what_is_seen_of_a_site(site: Site<'_>)
    ensures
        site.deep_view().root == site.root@,
        site.deep_view().main_root == site.main_root@,
        site.config is None <==> site.deep_view().config is None,
        site.config matches Some(config) ==> site.deep_view().config == Some(config.deep_view()),
{
}

/// Law: what is seen of a part of a path, and of the wording of a selection.
pub proof fn law_what_is_seen_of_parts(name: String, wording: Wording)
    ensures
        Component::Root.deep_view() == ComponentView::Root,
        Component::Current.deep_view() == ComponentView::Current,
        Component::Parent.deep_view() == ComponentView::Parent,
        Component::Normal(name).deep_view() == ComponentView::Normal(name@),
        wording.deep_view().kind == wording.kind@,
        wording.deep_view().subject == wording.subject@,
        wording.deep_view().items == wording.items@,
{
}

/// Law: what is seen of the command line is all that it asks for.
pub proof fn law_what_is_seen_of_an_invocation(invocation: Invocation)
    ensures
        ({
            let seen = invocation.deep_view();
            &&& invocation.name is None <==> seen.name is None
            &&& invocation.name matches Some(name) ==> seen.name == Some(name@)
            &&& invocation.created_path_file is None <==> seen.created_path_file is None
            &&& invocation.created_path_file matches Some(file) ==> seen.created_path_file == Some(
                file@,
            )
            &&& match invocation.command {
                None => seen.command is None,
                Some(Subcommand::ShellInit) => seen.command == Some(SubcommandView::ShellInit),
                Some(Subcommand::Clean { names, force }) => {
                    &&& seen.command matches Some(SubcommandView::Clean { names: n, force: f })
                    &&& same_texts(names, n) && f == force
                },
                Some(
                    Subcommand::RunBackgroundSetup {
                        repository_root,
                        worktree_path,
                        status_path,
                        setup_commands,
                    },
                ) => {
                    &&& seen.command matches Some(
                        SubcommandView::RunBackgroundSetup {
                            repository_root: r,
                            worktree_path: w,
                            status_path: s,
                            setup_commands: c,
                        },
                    )
                    &&& r == repository_root@ && w == worktree_path@ && s == status_path@
                    &&& same_texts(setup_commands, c)
                },
            }
        }),
{
}

} // verus!
