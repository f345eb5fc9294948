//! The program's decisions stand: what it decided on the replies that it had, it decides again
//! when there are more.

use vstd::prelude::*;
use crate::clean;
use crate::cli;
use crate::cli::{InvocationView, SubcommandView};
use crate::create;
use crate::create::SiteView;
use crate::git;
use crate::host;
use crate::host::{Flow, HaltView, ReplyView, RequestView};
use crate::laws::reading;
use crate::listing;
use crate::model::{BackgroundView, BaseView, ManagedView, OutcomeView};
use crate::path;
use crate::remove;
use crate::select;
use crate::select::WordingView;
use crate::setup;
use crate::text;

verus! {

broadcast use reading::group_reads;

/// A part of the program that came to `early`, and with `more` replies came to `late`, decided
/// the same both times, unless it had needed one more reply. It halts for a reply only where the
/// next one is not it, and the reply that it halted for is the next that it reads.
pub open spec fn stands<T>(early: Flow<T>, late: Flow<T>, more: Seq<ReplyView>) -> bool {
    &&& !host::pending(early) ==> late == (early.0, early.1 + more)
    &&& early.0 matches Err(HaltView::Pending(request)) ==> {
        &&& early.1.len() == 0 || !host::fits(request, early.1[0])
        &&& early.1.len() == 0 && more.len() == 1 && host::fits(request, more[0])
            ==> late.1.len() == 0
    }
}

/// Law: the reply to a request stands.
pub proof fn law_replies_stand(
    request: RequestView,
    replies: Seq<ReplyView>,
    more: Seq<ReplyView>,
)
    ensures
        stands(
            host::ask_flow(request, replies),
            host::ask_flow(request, replies + more),
            more,
        ),
{
    if replies.len() > 0 {
        assert((replies + more).drop_first() =~= replies.drop_first() + more);
    }
}

/// What `git_status_flow` comes to stands.
proof fn lemma_git_status(
    directory: Seq<char>,
    arguments: Seq<Seq<char>>,
    replies: Seq<ReplyView>,
    more: Seq<ReplyView>,
)
    ensures
        stands(
            git::git_status_flow(directory, arguments, replies),
            git::git_status_flow(directory, arguments, replies + more),
            more,
        ),
{
    law_replies_stand(RequestView::Git { directory, arguments }, replies, more);
}

/// What `git_output_flow` comes to stands.
proof fn lemma_git_output(
    directory: Seq<char>,
    arguments: Seq<Seq<char>>,
    replies: Seq<ReplyView>,
    more: Seq<ReplyView>,
)
    ensures
        stands(
            git::git_output_flow(directory, arguments, replies),
            git::git_output_flow(directory, arguments, replies + more),
            more,
        ),
{
    lemma_git_status(directory, arguments, replies, more);
}

/// What `git_path_flow` comes to stands.
proof fn lemma_git_path(
    directory: Seq<char>,
    name: Seq<char>,
    replies: Seq<ReplyView>,
    more: Seq<ReplyView>,
)
    ensures
        stands(
            git::git_path_flow(directory, name, replies),
            git::git_path_flow(directory, name, replies + more),
            more,
        ),
{
    lemma_git_output(directory, seq!["rev-parse"@, "--git-path"@, name], replies, more);
}

/// What `discover_flow` comes to stands.
proof fn lemma_discover(
    directory: Seq<char>,
    replies: Seq<ReplyView>,
    more: Seq<ReplyView>,
)
    ensures
        stands(
            git::discover_flow(directory, replies),
            git::discover_flow(directory, replies + more),
            more,
        ),
{
    lemma_git_output(directory, seq!["rev-parse"@, "--show-toplevel"@], replies, more);
    if let (Ok(root), rest) = git::git_output_flow(
        directory,
        seq!["rev-parse"@, "--show-toplevel"@],
        replies,
    ) {
        lemma_git_output(directory, seq!["rev-parse"@, "--is-bare-repository"@], rest, more);
    }
}

/// What `main_root_flow` comes to stands.
proof fn lemma_main_root(
    directory: Seq<char>,
    replies: Seq<ReplyView>,
    more: Seq<ReplyView>,
)
    ensures
        stands(
            git::main_root_flow(directory, replies),
            git::main_root_flow(directory, replies + more),
            more,
        ),
{
    lemma_discover(directory, replies, more);
    if let (Ok(root), rest) = git::discover_flow(directory, replies) {
        lemma_git_output(
            root,
            seq!["rev-parse"@, "--path-format=absolute"@, "--git-common-dir"@],
            rest,
            more,
        );
    }
}

/// What `said_flow` comes to stands.
proof fn lemma_said(
    directory: Seq<char>,
    arguments: Seq<Seq<char>>,
    replies: Seq<ReplyView>,
    more: Seq<ReplyView>,
)
    ensures
        stands(
            git::said_flow(directory, arguments, replies),
            git::said_flow(directory, arguments, replies + more),
            more,
        ),
{
    lemma_git_output(directory, arguments, replies, more);
}

/// What `linked_flow` comes to stands.
proof fn lemma_linked(
    root: Seq<char>,
    shared: Seq<char>,
    holder: Seq<char>,
    replies: Seq<ReplyView>,
    more: Seq<ReplyView>,
)
    ensures
        stands(
            git::linked_flow(root, shared, holder, replies),
            git::linked_flow(root, shared, holder, replies + more),
            more,
        ),
{
    let question = seq!["rev-parse"@, "--path-format=absolute"@, "--git-dir"@];
    lemma_said(root, question, replies, more);
    if let (Ok(_), rest) = git::said_flow(root, question, replies) {
        lemma_said(holder, seq!["rev-parse"@, "--show-toplevel"@], rest, more);
    }
}

/// What `primary_flow` comes to stands.
proof fn lemma_primary(
    root: Seq<char>,
    replies: Seq<ReplyView>,
    more: Seq<ReplyView>,
)
    ensures
        stands(
            git::primary_flow(root, replies),
            git::primary_flow(root, replies + more),
            more,
        ),
{
    let question = seq!["rev-parse"@, "--path-format=absolute"@, "--git-common-dir"@];
    lemma_said(root, question, replies, more);
    if let (Ok(Some(shared)), rest) = git::said_flow(root, question, replies) {
        if let Some(holder) = git::holder_of(shared) {
            lemma_linked(root, shared, holder, rest, more);
        }
    }
}

/// What `prune_flow` comes to stands.
proof fn lemma_prune(
    root: Seq<char>,
    replies: Seq<ReplyView>,
    more: Seq<ReplyView>,
)
    ensures
        stands(listing::prune_flow(root, replies), listing::prune_flow(root, replies + more), more),
{
    lemma_git_output(root, seq!["worktree"@, "prune"@], replies, more);
}

/// What `managed_flow` comes to stands.
proof fn lemma_managed(
    root: Seq<char>,
    replies: Seq<ReplyView>,
    more: Seq<ReplyView>,
)
    ensures
        stands(
            listing::managed_flow(root, replies),
            listing::managed_flow(root, replies + more),
            more,
        ),
{
    lemma_git_output(root, seq!["worktree"@, "list"@, "--porcelain"@], replies, more);
}

/// What `bases_flow` comes to stands.
proof fn lemma_bases(
    directory: Seq<char>,
    replies: Seq<ReplyView>,
    more: Seq<ReplyView>,
)
    ensures
        stands(
            listing::bases_flow(directory, replies),
            listing::bases_flow(directory, replies + more),
            more,
        ),
{
    lemma_discover(directory, replies, more);
    if let (Ok(root), rest) = git::discover_flow(directory, replies) {
        lemma_git_output(
            root,
            seq![
                "for-each-ref"@,
                "--sort=-committerdate"@,
                "--format=%(refname:short)"@,
                "refs/heads"@,
            ],
            rest,
            more,
        );
    }
}

/// What `current_base_flow` comes to stands.
proof fn lemma_current_base(
    directory: Seq<char>,
    replies: Seq<ReplyView>,
    more: Seq<ReplyView>,
)
    ensures
        stands(
            listing::current_base_flow(directory, replies),
            listing::current_base_flow(directory, replies + more),
            more,
        ),
{
    lemma_git_status(
        directory,
        seq!["symbolic-ref"@, "--quiet"@, "--short"@, "HEAD"@],
        replies,
        more,
    );
}

/// What `command_flow` comes to stands.
proof fn lemma_command(
    root: Seq<char>,
    worktree: Seq<char>,
    command: Seq<char>,
    replies: Seq<ReplyView>,
    more: Seq<ReplyView>,
)
    ensures
        stands(
            setup::command_flow(root, worktree, command, replies),
            setup::command_flow(root, worktree, command, replies + more),
            more,
        ),
{
    law_replies_stand(
        RequestView::Shell {
            directory: worktree,
            command,
            variable: setup::SETUP_REPOSITORY_ROOT_ENV@,
            value: root,
        },
        replies,
        more,
    );
}

/// What `commands_flow` comes to stands.
proof fn lemma_commands(
    root: Seq<char>,
    worktree: Seq<char>,
    commands: Seq<Seq<char>>,
    replies: Seq<ReplyView>,
    more: Seq<ReplyView>,
)
    ensures
        stands(
            setup::commands_flow(root, worktree, commands, replies),
            setup::commands_flow(root, worktree, commands, replies + more),
            more,
        ),
    decreases commands.len(),
{
    if commands.len() > 0 {
        lemma_command(root, worktree, commands[0], replies, more);
        let late = setup::command_flow(root, worktree, commands[0], replies + more).1;
        reading::lemma_commands_reads(root, worktree, commands.drop_first(), late);
        if let (Ok(_), rest) = setup::command_flow(root, worktree, commands[0], replies) {
            lemma_commands(root, worktree, commands.drop_first(), rest, more);
        }
    }
}

/// What `setup_flow` comes to stands.
proof fn lemma_setup(
    root: Seq<char>,
    worktree: Seq<char>,
    commands: Seq<Seq<char>>,
    replies: Seq<ReplyView>,
    more: Seq<ReplyView>,
)
    ensures
        stands(
            setup::setup_flow(root, worktree, commands, replies),
            setup::setup_flow(root, worktree, commands, replies + more),
            more,
        ),
{
    lemma_commands(root, worktree, commands, replies, more);
}

/// What `background_flow` comes to stands.
proof fn lemma_background(
    root: Seq<char>,
    worktree: Seq<char>,
    name: Seq<char>,
    commands: Seq<Seq<char>>,
    replies: Seq<ReplyView>,
    more: Seq<ReplyView>,
)
    ensures
        stands(
            setup::background_flow(root, worktree, name, commands, replies),
            setup::background_flow(root, worktree, name, commands, replies + more),
            more,
        ),
{
    lemma_git_path(root, setup::BACKGROUND_SETUP_DIRECTORY@, replies, more);
}

/// What `do_flow` comes to stands.
proof fn lemma_do(
    request: RequestView,
    complaint: Seq<char>,
    replies: Seq<ReplyView>,
    more: Seq<ReplyView>,
)
    ensures
        stands(
            setup::do_flow(request, complaint, replies),
            setup::do_flow(request, complaint, replies + more),
            more,
        ),
{
    law_replies_stand(request, replies, more);
}

/// What `status_flow` comes to stands.
proof fn lemma_status(
    path: Seq<char>,
    contents: Seq<char>,
    replies: Seq<ReplyView>,
    more: Seq<ReplyView>,
)
    ensures
        stands(
            setup::status_flow(path, contents, replies),
            setup::status_flow(path, contents, replies + more),
            more,
        ),
{
    lemma_do(
        RequestView::Write { path, contents },
        "failed to update background setup status "@ + path,
        replies,
        more,
    );
}

/// What `spawn_flow` comes to stands.
proof fn lemma_spawn(
    executable: Seq<char>,
    setup: BackgroundView,
    replies: Seq<ReplyView>,
    more: Seq<ReplyView>,
)
    ensures
        stands(
            setup::spawn_flow(executable, setup, replies),
            setup::spawn_flow(executable, setup, replies + more),
            more,
        ),
{
    let request = RequestView::StartWorker {
        executable,
        arguments: setup::worker_arguments(setup),
    };
    law_replies_stand(request, replies, more);
    if let (Ok(reply), rest) = host::ask_flow(request, replies) {
        let message = "failed to start background setup worker "@ + executable + ": "@
            + reply->Failed_0;
        lemma_status(setup.status_path, "failed\n"@ + message + "\n"@, rest, more);
    }
}

/// What `start_flow` comes to stands.
proof fn lemma_start(
    executable: Seq<char>,
    setup: BackgroundView,
    replies: Seq<ReplyView>,
    more: Seq<ReplyView>,
)
    ensures
        stands(
            setup::start_flow(executable, setup, replies),
            setup::start_flow(executable, setup, replies + more),
            more,
        ),
{
    if let Some(directory) = path::parent_of(setup.log_path) {
        lemma_do(
            RequestView::CreateDirectory { path: directory },
            "failed to create background setup directory "@ + directory,
            replies,
            more,
        );
        if let (Ok(_), rest) = setup::do_flow(
            RequestView::CreateDirectory { path: directory },
            "failed to create background setup directory "@ + directory,
            replies,
        ) {
            lemma_status(setup.status_path, "pending\n"@, rest, more);
            if let (Ok(_), rest2) = setup::status_flow(setup.status_path, "pending\n"@, rest) {
                lemma_do(
                    RequestView::CreateLog { path: setup.log_path },
                    "failed to create background setup log "@ + setup.log_path,
                    rest2,
                    more,
                );
                if let (Ok(_), rest3) = setup::do_flow(
                    RequestView::CreateLog { path: setup.log_path },
                    "failed to create background setup log "@ + setup.log_path,
                    rest2,
                ) {
                    lemma_do(
                        RequestView::ShareLog { path: setup.log_path },
                        "failed to open background setup log "@ + setup.log_path + " for stdout"@,
                        rest3,
                        more,
                    );
                    if let (Ok(_), rest4) = setup::do_flow(
                        RequestView::ShareLog { path: setup.log_path },
                        "failed to open background setup log "@ + setup.log_path + " for stdout"@,
                        rest3,
                    ) {
                        lemma_spawn(executable, setup, rest4, more);
                    }
                }
            }
        }
    }
}

/// What `worker_flow` comes to stands.
proof fn lemma_worker(
    root: Seq<char>,
    worktree: Seq<char>,
    status_path: Seq<char>,
    commands: Seq<Seq<char>>,
    replies: Seq<ReplyView>,
    more: Seq<ReplyView>,
)
    ensures
        stands(
            setup::worker_flow(root, worktree, status_path, commands, replies),
            setup::worker_flow(root, worktree, status_path, commands, replies + more),
            more,
        ),
{
    lemma_status(status_path, "running\n"@, replies, more);
    if let (Ok(_), rest) = setup::status_flow(status_path, "running\n"@, replies) {
        lemma_setup(root, worktree, commands, rest, more);
        match setup::setup_flow(root, worktree, commands, rest) {
            (Err(HaltView::Failed(error)), rest) => {
                lemma_status(status_path, "failed\n"@ + error + "\n"@, rest, more);
            },
            (Ok(_), rest) => {
                lemma_status(status_path, "succeeded\n"@, rest, more);
            },
            _ => {},
        }
    }
}

/// What `remove_artifact_flow` comes to stands.
proof fn lemma_remove_artifact(
    path: Seq<char>,
    replies: Seq<ReplyView>,
    more: Seq<ReplyView>,
)
    ensures
        stands(
            setup::remove_artifact_flow(path, replies),
            setup::remove_artifact_flow(path, replies + more),
            more,
        ),
{
    lemma_do(
        RequestView::Remove { path },
        "failed to remove background setup file "@ + path,
        replies,
        more,
    );
}

/// What `remove_artifacts_flow` comes to stands.
proof fn lemma_remove_artifacts(
    root: Seq<char>,
    name: Seq<char>,
    replies: Seq<ReplyView>,
    more: Seq<ReplyView>,
)
    ensures
        stands(
            setup::remove_artifacts_flow(root, name, replies),
            setup::remove_artifacts_flow(root, name, replies + more),
            more,
        ),
{
    lemma_git_path(root, setup::BACKGROUND_SETUP_DIRECTORY@, replies, more);
    if let (Ok(directory), rest) = git::git_path_flow(
        root,
        setup::BACKGROUND_SETUP_DIRECTORY@,
        replies,
    ) {
        lemma_remove_artifact(setup::artifact_path(directory, name, "log"@), rest, more);
        if let (Ok(_), rest2) = setup::remove_artifact_flow(
            setup::artifact_path(directory, name, "log"@),
            rest,
        ) {
            lemma_remove_artifact(setup::artifact_path(directory, name, "status"@), rest2, more);
        }
    }
}

/// What `head_flow` comes to stands.
proof fn lemma_head(
    root: Seq<char>,
    replies: Seq<ReplyView>,
    more: Seq<ReplyView>,
)
    ensures
        stands(create::head_flow(root, replies), create::head_flow(root, replies + more), more),
{
    let question = seq!["rev-parse"@, "--verify"@, "HEAD"@];
    lemma_git_status(root, question, replies, more);
    if let (Ok(_), rest) = git::git_status_flow(root, question, replies) {
        lemma_git_status(root, seq!["rev-list"@, "--max-count=1"@, "--all"@], rest, more);
    }
}

/// What `base_flow` comes to stands.
proof fn lemma_base(
    root: Seq<char>,
    base: BaseView,
    replies: Seq<ReplyView>,
    more: Seq<ReplyView>,
)
    ensures
        stands(
            create::base_flow(root, base, replies),
            create::base_flow(root, base, replies + more),
            more,
        ),
{
    lemma_git_status(
        root,
        seq!["rev-parse"@, "--verify"@, "--quiet"@, base.reference_text() + "^{commit}"@],
        replies,
        more,
    );
}

/// What `branch_flow` comes to stands.
proof fn lemma_branch(
    root: Seq<char>,
    name: Seq<char>,
    replies: Seq<ReplyView>,
    more: Seq<ReplyView>,
)
    ensures
        stands(
            create::branch_flow(root, name, replies),
            create::branch_flow(root, name, replies + more),
            more,
        ),
{
    law_replies_stand(
        RequestView::Git {
            directory: root,
            arguments: seq!["show-ref"@, "--verify"@, "--quiet"@, "refs/heads/"@ + name],
        },
        replies,
        more,
    );
}

/// What `target_flow` comes to stands.
proof fn lemma_target(
    path: Seq<char>,
    replies: Seq<ReplyView>,
    more: Seq<ReplyView>,
)
    ensures
        stands(create::target_flow(path, replies), create::target_flow(path, replies + more), more),
{
    law_replies_stand(RequestView::Exists { path }, replies, more);
}

/// What `config_flow` comes to stands.
proof fn lemma_config(
    root: Seq<char>,
    replies: Seq<ReplyView>,
    more: Seq<ReplyView>,
)
    ensures
        stands(create::config_flow(root, replies), create::config_flow(root, replies + more), more),
{
    let request = RequestView::Read { path: path::join_of(root, create::CONFIG_FILE_NAME@) };
    law_replies_stand(request, replies, more);
    if let (Ok(reply), rest) = host::ask_flow(request, replies) {
        law_replies_stand(RequestView::ParseConfig { contents: reply->Text_0 }, rest, more);
    }
}

/// The checks before a creation stand.
pub proof fn lemma_check(
    directory: Seq<char>,
    name: Seq<char>,
    base: BaseView,
    replies: Seq<ReplyView>,
    more: Seq<ReplyView>,
)
    ensures
        stands(
            create::check_flow(directory, name, base, replies),
            create::check_flow(directory, name, base, replies + more),
            more,
        ),
{
    lemma_discover(directory, replies, more);
    if let (Ok(root), rest) = git::discover_flow(directory, replies) {
        lemma_head(root, rest, more);
        if let (Ok(_), rest2) = create::head_flow(root, rest) {
            lemma_base(root, base, rest2, more);
            if let (Ok(_), rest3) = create::base_flow(root, base, rest2) {
                lemma_branch(root, name, rest3, more);
                if let (Ok(_), rest4) = create::branch_flow(root, name, rest3) {
                    lemma_target(listing::worktree_path_of(root, name), rest4, more);
                    if let (Ok(_), rest5) = create::target_flow(
                        listing::worktree_path_of(root, name),
                        rest4,
                    ) {
                        lemma_config(root, rest5, more);
                        if let (Ok(_), rest6) = create::config_flow(root, rest5) {
                            lemma_primary(root, rest6, more);
                        }
                    }
                }
            }
        }
    }
}

/// What `ignore_flow` comes to stands.
proof fn lemma_ignore(
    root: Seq<char>,
    replies: Seq<ReplyView>,
    more: Seq<ReplyView>,
)
    ensures
        stands(create::ignore_flow(root, replies), create::ignore_flow(root, replies + more), more),
{
    lemma_git_path(root, "info/exclude"@, replies, more);
    if let (Ok(path), rest) = git::git_path_flow(root, "info/exclude"@, replies) {
        law_replies_stand(RequestView::Read { path }, rest, more);
        if let (Ok(reply), rest1) = host::ask_flow(RequestView::Read { path }, rest) {
            let contents = if reply is Absent {
                Seq::empty()
            } else {
                reply->Text_0
            };
            lemma_do(
                RequestView::Write { path, contents: create::excluding(contents) },
                "failed to update Git exclude file "@ + path,
                rest1,
                more,
            );
        }
    }
}

/// What `add_flow` comes to stands.
proof fn lemma_add(
    root: Seq<char>,
    name: Seq<char>,
    path: Seq<char>,
    base: BaseView,
    replies: Seq<ReplyView>,
    more: Seq<ReplyView>,
)
    ensures
        stands(
            create::add_flow(root, name, path, base, replies),
            create::add_flow(root, name, path, base, replies + more),
            more,
        ),
{
    law_replies_stand(
        RequestView::GitAttached {
            directory: root,
            arguments: create::add_arguments(name, path, base),
        },
        replies,
        more,
    );
}

/// What `furnish_flow` comes to stands.
proof fn lemma_furnish(
    site: SiteView,
    name: Seq<char>,
    replies: Seq<ReplyView>,
    more: Seq<ReplyView>,
)
    ensures
        stands(
            create::furnish_flow(site, name, replies),
            create::furnish_flow(site, name, replies + more),
            more,
        ),
{
    let path = listing::worktree_path_of(site.root, name);
    if let Some(config) = site.config {
        lemma_setup(site.main_root, path, config.setup_commands, replies, more);
        if let (Ok(_), rest) = setup::setup_flow(
            site.main_root,
            path,
            config.setup_commands,
            replies,
        ) {
            lemma_background(
                site.root,
                path,
                name,
                config.background_setup_commands,
                rest,
                more,
            );
        }
    }
}

/// Law: what the creation of a worktree came to stands.
pub proof fn law_creation_stands(
    directory: Seq<char>,
    name: Seq<char>,
    base: BaseView,
    replies: Seq<ReplyView>,
    more: Seq<ReplyView>,
)
    ensures
        stands(
            create::create_flow(directory, name, base, replies),
            create::create_flow(directory, name, base, replies + more),
            more,
        ),
{
    lemma_check(directory, name, base, replies, more);
    if let (Ok(site), rest) = create::check_flow(directory, name, base, replies) {
        lemma_ignore(site.root, rest, more);
        if let (Ok(_), rest2) = create::ignore_flow(site.root, rest) {
            lemma_add(
                site.root,
                name,
                listing::worktree_path_of(site.root, name),
                base,
                rest2,
                more,
            );
            if let (Ok(_), rest3) = create::add_flow(
                site.root,
                name,
                listing::worktree_path_of(site.root, name),
                base,
                rest2,
            ) {
                lemma_furnish(site, name, rest3, more);
            }
        }
    }
}

/// What `selector_flow` comes to stands.
proof fn lemma_selector(
    wording: WordingView,
    arguments: Seq<Seq<char>>,
    rows: Seq<char>,
    replies: Seq<ReplyView>,
    more: Seq<ReplyView>,
)
    ensures
        stands(
            select::selector_flow(wording, arguments, rows, replies),
            select::selector_flow(wording, arguments, rows, replies + more),
            more,
        ),
{
    law_replies_stand(RequestView::StartSelector { arguments }, replies, more);
    if let (Ok(_), rest) = host::ask_flow(RequestView::StartSelector { arguments }, replies) {
        law_replies_stand(RequestView::FeedSelector { rows }, rest, more);
        if let (Ok(_), rest2) = host::ask_flow(RequestView::FeedSelector { rows }, rest) {
            law_replies_stand(RequestView::AwaitSelector, rest2, more);
        }
    }
}

/// What `select_base_flow` comes to stands.
proof fn lemma_select_base(
    bases: Seq<BaseView>,
    default_base: Option<BaseView>,
    replies: Seq<ReplyView>,
    more: Seq<ReplyView>,
)
    ensures
        stands(
            select::select_base_flow(bases, default_base, replies),
            select::select_base_flow(bases, default_base, replies + more),
            more,
        ),
{
    lemma_selector(
        select::base_wording(),
        select::base_selector_arguments(select::base_position(bases, default_base)),
        text::each_ended(select::labels_of(bases), "\n"@),
        replies,
        more,
    );
}

/// What `terminal_flow` comes to stands.
proof fn lemma_terminal(
    replies: Seq<ReplyView>,
    more: Seq<ReplyView>,
)
    ensures
        stands(select::terminal_flow(replies), select::terminal_flow(replies + more), more),
{
    law_replies_stand(RequestView::InputIsTerminal, replies, more);
}

/// What `prompt_base_flow` comes to stands.
proof fn lemma_prompt_base(
    directory: Seq<char>,
    replies: Seq<ReplyView>,
    more: Seq<ReplyView>,
)
    ensures
        stands(
            select::prompt_base_flow(directory, replies),
            select::prompt_base_flow(directory, replies + more),
            more,
        ),
{
    lemma_terminal(replies, more);
    if let (Ok(_), rest) = select::terminal_flow(replies) {
        lemma_bases(directory, rest, more);
        if let (Ok(bases), rest2) = listing::bases_flow(directory, rest) {
            lemma_current_base(directory, rest2, more);
            if let (Ok(current), rest3) = listing::current_base_flow(directory, rest2) {
                lemma_select_base(bases, current, rest3, more);
            }
        }
    }
}

/// What `remove_directory_flow` comes to stands.
proof fn lemma_remove_directory(
    root: Seq<char>,
    path: Seq<char>,
    force: bool,
    replies: Seq<ReplyView>,
    more: Seq<ReplyView>,
)
    ensures
        stands(
            remove::remove_directory_flow(root, path, force, replies),
            remove::remove_directory_flow(root, path, force, replies + more),
            more,
        ),
{
    law_replies_stand(
        RequestView::Git { directory: root, arguments: remove::remove_arguments(path, force) },
        replies,
        more,
    );
}

/// What `delete_branch_flow` comes to stands.
proof fn lemma_delete_branch(
    root: Seq<char>,
    branch: Seq<char>,
    force: bool,
    replies: Seq<ReplyView>,
    more: Seq<ReplyView>,
)
    ensures
        stands(
            remove::delete_branch_flow(root, branch, force, replies),
            remove::delete_branch_flow(root, branch, force, replies + more),
            more,
        ),
{
    let flag = if force {
        "-D"@
    } else {
        "-d"@
    };
    lemma_git_status(root, seq!["branch"@, flag, branch], replies, more);
}

/// What `remove_flow` comes to stands.
proof fn lemma_remove(
    root: Seq<char>,
    worktree: ManagedView,
    force: bool,
    replies: Seq<ReplyView>,
    more: Seq<ReplyView>,
)
    ensures
        stands(
            remove::remove_flow(root, worktree, force, replies),
            remove::remove_flow(root, worktree, force, replies + more),
            more,
        ),
{
    lemma_remove_directory(root, worktree.path, force, replies, more);
    if let (Ok(_), rest) = remove::remove_directory_flow(root, worktree.path, force, replies) {
        lemma_remove_artifacts(root, worktree.name, rest, more);
        if let (Ok(_), rest1) = setup::remove_artifacts_flow(root, worktree.name, rest) {
            if let Some(branch) = worktree.branch {
                lemma_delete_branch(root, branch, force, rest1, more);
            }
        }
    }
}

/// What `print_flow` comes to stands.
proof fn lemma_print(
    line: Seq<char>,
    replies: Seq<ReplyView>,
    more: Seq<ReplyView>,
)
    ensures
        stands(remove::print_flow(line, replies), remove::print_flow(line, replies + more), more),
{
    law_replies_stand(RequestView::Print { line }, replies, more);
}

/// What `report_flow` comes to stands.
proof fn lemma_report(
    line: Seq<char>,
    replies: Seq<ReplyView>,
    more: Seq<ReplyView>,
)
    ensures
        stands(remove::report_flow(line, replies), remove::report_flow(line, replies + more), more),
{
    law_replies_stand(RequestView::Report { line }, replies, more);
}

/// What `attempt_flow` comes to stands.
proof fn lemma_attempt(
    root: Seq<char>,
    worktree: ManagedView,
    force: bool,
    replies: Seq<ReplyView>,
    more: Seq<ReplyView>,
)
    ensures
        stands(
            remove::attempt_flow(root, worktree, force, replies),
            remove::attempt_flow(root, worktree, force, replies + more),
            more,
        ),
{
    lemma_remove(root, worktree, force, replies, more);
    match remove::remove_flow(root, worktree, force, replies) {
        (Err(HaltView::Failed(error)), rest) => {
            lemma_report("error: "@ + error, rest, more);
        },
        (Err(_), _) => {},
        (Ok(outcome), rest) => {
            let line = "removed worktree '"@ + worktree.name + "'"@;
            lemma_print(line, rest, more);
            if let (Ok(_), rest1) = remove::print_flow(line, rest) {
                if let Some(message) = remove::branch_message(outcome) {
                    lemma_print(message, rest1, more);
                }
            }
        },
    }
}

/// What `attempts_flow` comes to stands.
proof fn lemma_attempts(
    root: Seq<char>,
    worktrees: Seq<ManagedView>,
    force: bool,
    replies: Seq<ReplyView>,
    more: Seq<ReplyView>,
)
    ensures
        stands(
            remove::attempts_flow(root, worktrees, force, replies),
            remove::attempts_flow(root, worktrees, force, replies + more),
            more,
        ),
    decreases worktrees.len(),
{
    if worktrees.len() > 0 {
        lemma_attempts(root, worktrees.drop_last(), force, replies, more);
        if let (Ok(_), rest) = remove::attempts_flow(
            root,
            worktrees.drop_last(),
            force,
            replies,
        ) {
            lemma_attempt(root, worktrees.last(), force, rest, more);
        }
    }
}

/// What `removals_flow` comes to stands.
proof fn lemma_removals(
    root: Seq<char>,
    worktrees: Seq<ManagedView>,
    force: bool,
    replies: Seq<ReplyView>,
    more: Seq<ReplyView>,
)
    ensures
        stands(
            remove::removals_flow(root, worktrees, force, replies),
            remove::removals_flow(root, worktrees, force, replies + more),
            more,
        ),
{
    lemma_attempts(root, worktrees, force, replies, more);
}

/// What `select_rows_flow` comes to stands.
proof fn lemma_select_rows(
    worktrees: Seq<ManagedView>,
    current: Option<ManagedView>,
    replies: Seq<ReplyView>,
    more: Seq<ReplyView>,
)
    ensures
        stands(
            clean::select_rows_flow(worktrees, current, replies),
            clean::select_rows_flow(worktrees, current, replies + more),
            more,
        ),
{
    lemma_selector(
        clean::worktree_wording(),
        clean::worktree_selector_arguments(clean::worktree_position(worktrees, current)),
        text::each_ended(clean::rows_of(worktrees), "\n"@),
        replies,
        more,
    );
}

/// What `canonical_flow` comes to stands.
proof fn lemma_canonical(
    directory: Seq<char>,
    replies: Seq<ReplyView>,
    more: Seq<ReplyView>,
)
    ensures
        stands(
            clean::canonical_flow(directory, replies),
            clean::canonical_flow(directory, replies + more),
            more,
        ),
{
    law_replies_stand(RequestView::Canonicalize { path: directory }, replies, more);
}

/// What `select_flow` comes to stands.
proof fn lemma_select(
    directory: Seq<char>,
    worktrees: Seq<ManagedView>,
    names: Seq<Seq<char>>,
    replies: Seq<ReplyView>,
    more: Seq<ReplyView>,
)
    ensures
        stands(
            clean::select_flow(directory, worktrees, names, replies),
            clean::select_flow(directory, worktrees, names, replies + more),
            more,
        ),
{
    lemma_terminal(replies, more);
    if let (Ok(_), rest) = select::terminal_flow(replies) {
        lemma_canonical(directory, rest, more);
        if let (Ok(current), rest2) = clean::canonical_flow(directory, rest) {
            lemma_select_rows(worktrees, clean::around(worktrees, current), rest2, more);
        }
    }
}

/// What `paths_flow` comes to stands.
proof fn lemma_paths(
    worktrees: Seq<ManagedView>,
    replies: Seq<ReplyView>,
    more: Seq<ReplyView>,
)
    ensures
        stands(
            clean::paths_flow(worktrees, replies),
            clean::paths_flow(worktrees, replies + more),
            more,
        ),
    decreases worktrees.len(),
{
    if worktrees.len() > 0 {
        lemma_print(worktrees[0].path, replies, more);
        let late = remove::print_flow(worktrees[0].path, replies + more).1;
        reading::lemma_paths_reads(worktrees.drop_first(), late);
        if let (Ok(_), rest) = remove::print_flow(worktrees[0].path, replies) {
            lemma_paths(worktrees.drop_first(), rest, more);
        }
    }
}

/// What `confirm_flow` comes to stands.
proof fn lemma_confirm(
    worktrees: Seq<ManagedView>,
    force: bool,
    replies: Seq<ReplyView>,
    more: Seq<ReplyView>,
)
    ensures
        stands(
            clean::confirm_flow(worktrees, force, replies),
            clean::confirm_flow(worktrees, force, replies + more),
            more,
        ),
{
    lemma_terminal(replies, more);
    if let (Ok(_), rest) = select::terminal_flow(replies) {
        lemma_paths(worktrees, rest, more);
        if let (Ok(_), rest2) = clean::paths_flow(worktrees, rest) {
            lemma_do(
                RequestView::Prompt { question: clean::removal_question(worktrees.len(), force) },
                "failed to write confirmation prompt"@,
                rest2,
                more,
            );
            if let (Ok(_), rest3) = setup::do_flow(
                RequestView::Prompt { question: clean::removal_question(worktrees.len(), force) },
                "failed to write confirmation prompt"@,
                rest2,
            ) {
                law_replies_stand(RequestView::ReadLine, rest3, more);
            }
        }
    }
}

/// What `approve_flow` comes to stands.
proof fn lemma_approve(
    directory: Seq<char>,
    worktrees: Seq<ManagedView>,
    names: Seq<Seq<char>>,
    force: bool,
    replies: Seq<ReplyView>,
    more: Seq<ReplyView>,
)
    ensures
        stands(
            clean::approve_flow(directory, worktrees, names, force, replies),
            clean::approve_flow(directory, worktrees, names, force, replies + more),
            more,
        ),
{
    lemma_select(directory, worktrees, names, replies, more);
    if let (Ok(selected), rest) = clean::select_flow(directory, worktrees, names, replies) {
        lemma_confirm(selected, force, rest, more);
    }
}

/// Law: what a clean-up came to stands.
pub proof fn law_clean_up_stands(
    directory: Seq<char>,
    names: Seq<Seq<char>>,
    force: bool,
    replies: Seq<ReplyView>,
    more: Seq<ReplyView>,
)
    ensures
        stands(
            clean::clean_flow(directory, names, force, replies),
            clean::clean_flow(directory, names, force, replies + more),
            more,
        ),
{
    lemma_main_root(directory, replies, more);
    if let (Ok(root), rest) = git::main_root_flow(directory, replies) {
        lemma_prune(root, rest, more);
        if let (Ok(_), rest1) = listing::prune_flow(root, rest) {
            lemma_managed(root, rest1, more);
            if let (Ok(worktrees), rest2) = listing::managed_flow(root, rest1) {
                lemma_print("no worktrees to clean up"@, rest2, more);
                lemma_approve(directory, worktrees, names, force, rest2, more);
                if let (Ok(approved), rest3) = clean::approve_flow(
                    directory,
                    worktrees,
                    names,
                    force,
                    rest2,
                ) {
                    lemma_removals(root, approved, force, rest3, more);
                }
            }
        }
    }
}

/// What `told_flow` comes to stands.
proof fn lemma_told(
    request: RequestView,
    complaint: Seq<char>,
    replies: Seq<ReplyView>,
    more: Seq<ReplyView>,
)
    ensures
        stands(
            cli::told_flow(request, complaint, replies),
            cli::told_flow(request, complaint, replies + more),
            more,
        ),
{
    law_replies_stand(request, replies, more);
}

/// What `name_flow` comes to stands.
proof fn lemma_name(
    name: Option<Seq<char>>,
    replies: Seq<ReplyView>,
    more: Seq<ReplyView>,
)
    ensures
        stands(cli::name_flow(name, replies), cli::name_flow(name, replies + more), more),
{
    law_replies_stand(RequestView::RandomName, replies, more);
}

/// What `launch_flow` comes to stands.
proof fn lemma_launch(
    background: Option<BackgroundView>,
    replies: Seq<ReplyView>,
    more: Seq<ReplyView>,
)
    ensures
        stands(
            cli::launch_flow(background, replies),
            cli::launch_flow(background, replies + more),
            more,
        ),
{
    if let Some(setup) = background {
        let complaint = "failed to locate current executable"@;
        lemma_told(RequestView::CurrentExecutable, complaint, replies, more);
        if let (Ok(executable), rest) = cli::told_flow(
            RequestView::CurrentExecutable,
            complaint,
            replies,
        ) {
            lemma_start(executable, setup, rest, more);
        }
    }
}

/// What `warn_flow` comes to stands.
proof fn lemma_warn(
    config_missing: bool,
    replies: Seq<ReplyView>,
    more: Seq<ReplyView>,
)
    ensures
        stands(
            cli::warn_flow(config_missing, replies),
            cli::warn_flow(config_missing, replies + more),
            more,
        ),
{
    lemma_report(
        "warning: "@ + create::CONFIG_FILE_NAME@ + " not found; skipping setup commands"@,
        replies,
        more,
    );
}

/// What `note_path_flow` comes to stands.
proof fn lemma_note_path(
    file: Option<Seq<char>>,
    path: Seq<char>,
    replies: Seq<ReplyView>,
    more: Seq<ReplyView>,
)
    ensures
        stands(
            cli::note_path_flow(file, path, replies),
            cli::note_path_flow(file, path, replies + more),
            more,
        ),
{
    if let Some(file) = file {
        lemma_do(
            RequestView::Write { path: file, contents: path },
            "failed to write created worktree path to "@ + file,
            replies,
            more,
        );
    }
}

/// What `lines_flow` comes to stands.
proof fn lemma_lines(
    lines: Seq<Seq<char>>,
    replies: Seq<ReplyView>,
    more: Seq<ReplyView>,
)
    ensures
        stands(cli::lines_flow(lines, replies), cli::lines_flow(lines, replies + more), more),
    decreases lines.len(),
{
    if lines.len() > 0 {
        lemma_print(lines[0], replies, more);
        let late = remove::print_flow(lines[0], replies + more).1;
        reading::lemma_lines_reads(lines.drop_first(), late);
        if let (Ok(_), rest) = remove::print_flow(lines[0], replies) {
            lemma_lines(lines.drop_first(), rest, more);
        }
    }
}

/// What `conclude_flow` comes to stands.
proof fn lemma_conclude(
    outcome: OutcomeView,
    file: Option<Seq<char>>,
    replies: Seq<ReplyView>,
    more: Seq<ReplyView>,
)
    ensures
        stands(
            cli::conclude_flow(outcome, file, replies),
            cli::conclude_flow(outcome, file, replies + more),
            more,
        ),
{
    lemma_launch(outcome.background_setup, replies, more);
    if let (Ok(process), rest) = cli::launch_flow(outcome.background_setup, replies) {
        lemma_warn(outcome.config_missing, rest, more);
        if let (Ok(_), rest2) = cli::warn_flow(outcome.config_missing, rest) {
            lemma_note_path(file, outcome.path, rest2, more);
            if let (Ok(_), rest3) = cli::note_path_flow(file, outcome.path, rest2) {
                lemma_lines(cli::summary(outcome, process), rest3, more);
            }
        }
    }
}

/// What `new_worktree_flow` comes to stands.
proof fn lemma_new_worktree(
    directory: Seq<char>,
    name: Option<Seq<char>>,
    file: Option<Seq<char>>,
    replies: Seq<ReplyView>,
    more: Seq<ReplyView>,
)
    ensures
        stands(
            cli::new_worktree_flow(directory, name, file, replies),
            cli::new_worktree_flow(directory, name, file, replies + more),
            more,
        ),
{
    lemma_prompt_base(directory, replies, more);
    if let (Ok(Some(base)), rest) = select::prompt_base_flow(directory, replies) {
        lemma_name(name, rest, more);
        if let (Ok(chosen), rest2) = cli::name_flow(name, rest) {
            law_creation_stands(directory, chosen, base, rest2, more);
            if let (Ok(outcome), rest3) = create::create_flow(directory, chosen, base, rest2) {
                lemma_conclude(outcome, file, rest3, more);
            }
        }
    }
}

/// Law: what the whole program came to stands.
pub proof fn law_the_program_stands(
    invocation: InvocationView,
    replies: Seq<ReplyView>,
    more: Seq<ReplyView>,
)
    ensures
        stands(cli::run_flow(invocation, replies), cli::run_flow(invocation, replies + more), more),
{
    let complaint = "failed to determine cwd"@;
    lemma_told(RequestView::CurrentDirectory, complaint, replies, more);
    if let (Ok(directory), rest) = cli::told_flow(
        RequestView::CurrentDirectory,
        complaint,
        replies,
    ) {
        match invocation.command {
            Some(SubcommandView::Clean { names, force }) => {
                law_clean_up_stands(directory, names, force, rest, more);
            },
            Some(SubcommandView::ShellInit) => {
                lemma_print(cli::SHELL_INIT@, rest, more);
            },
            Some(
                SubcommandView::RunBackgroundSetup {
                    repository_root,
                    worktree_path,
                    status_path,
                    setup_commands,
                },
            ) => {
                lemma_worker(
                    repository_root,
                    worktree_path,
                    status_path,
                    setup_commands,
                    rest,
                    more,
                );
            },
            None => {
                lemma_new_worktree(
                    directory,
                    invocation.name,
                    invocation.created_path_file,
                    rest,
                    more,
                );
            },
        }
    }
}

/// Law: where the program has read all replies and needs one more, it reads that one when it
/// comes. So the program gets further with every reply, and never has one left over.
pub proof fn law_every_reply_is_read(
    invocation: InvocationView,
    replies: Seq<ReplyView>,
    request: RequestView,
    reply: ReplyView,
)
    requires
        cli::run_flow(invocation, replies) == (
            Err::<(), HaltView>(HaltView::Pending(request)),
            Seq::<ReplyView>::empty(),
        ),
        host::fits(request, reply),
    ensures
        cli::run_flow(invocation, replies.push(reply)).1 == Seq::<ReplyView>::empty(),
{
    law_the_program_stands(invocation, replies, seq![reply]);
    assert(replies.push(reply) =~= replies + seq![reply]);
}

} // verus!
