//! The program reads its replies in their order: each part of it leaves no more of them than it
//! was given.

use vstd::prelude::*;
use crate::clean;
use crate::cli;
use crate::cli::InvocationView;
use crate::create;
use crate::create::SiteView;
use crate::git;
use crate::host;
use crate::host::{ReplyView, RequestView};
use crate::listing;
use crate::model::{BackgroundView, BaseView, ManagedView, OutcomeView};
use crate::remove;
use crate::select;
use crate::select::WordingView;
use crate::setup;

verus! {

/// A request takes one reply or none.
pub broadcast proof fn lemma_ask_reads(request: RequestView, replies: Seq<ReplyView>)
    ensures
        (#[trigger] host::ask_flow(request, replies)).1.len() <= replies.len(),
{
}

/// So it is with `git_status_flow`.
pub broadcast proof fn lemma_git_status_reads(
    directory: Seq<char>,
    arguments: Seq<Seq<char>>,
    replies: Seq<ReplyView>,
)
    ensures
        (#[trigger] git::git_status_flow(directory, arguments, replies)).1.len() <= replies.len(),
{
    broadcast use lemma_ask_reads;

}

/// So it is with `git_output_flow`.
pub broadcast proof fn lemma_git_output_reads(
    directory: Seq<char>,
    arguments: Seq<Seq<char>>,
    replies: Seq<ReplyView>,
)
    ensures
        (#[trigger] git::git_output_flow(directory, arguments, replies)).1.len() <= replies.len(),
{
    broadcast use lemma_git_status_reads;

}

/// So it is with `git_path_flow`.
pub broadcast proof fn lemma_git_path_reads(
    directory: Seq<char>,
    name: Seq<char>,
    replies: Seq<ReplyView>,
)
    ensures
        (#[trigger] git::git_path_flow(directory, name, replies)).1.len() <= replies.len(),
{
    broadcast use lemma_git_output_reads;

}

/// So it is with `discover_flow`.
pub broadcast proof fn lemma_discover_reads(directory: Seq<char>, replies: Seq<ReplyView>)
    ensures
        (#[trigger] git::discover_flow(directory, replies)).1.len() <= replies.len(),
{
    broadcast use lemma_git_output_reads;

}

/// So it is with `main_root_flow`.
pub broadcast proof fn lemma_main_root_reads(directory: Seq<char>, replies: Seq<ReplyView>)
    ensures
        (#[trigger] git::main_root_flow(directory, replies)).1.len() <= replies.len(),
{
    broadcast use {lemma_discover_reads, lemma_git_output_reads};

}

/// So it is with `said_flow`.
pub broadcast proof fn lemma_said_reads(
    directory: Seq<char>,
    arguments: Seq<Seq<char>>,
    replies: Seq<ReplyView>,
)
    ensures
        (#[trigger] git::said_flow(directory, arguments, replies)).1.len() <= replies.len(),
{
    broadcast use lemma_git_output_reads;

}

/// So it is with `linked_flow`.
pub broadcast proof fn lemma_linked_reads(
    root: Seq<char>,
    shared: Seq<char>,
    holder: Seq<char>,
    replies: Seq<ReplyView>,
)
    ensures
        (#[trigger] git::linked_flow(root, shared, holder, replies)).1.len() <= replies.len(),
{
    broadcast use lemma_said_reads;

}

/// So it is with `primary_flow`.
pub broadcast proof fn lemma_primary_reads(root: Seq<char>, replies: Seq<ReplyView>)
    ensures
        (#[trigger] git::primary_flow(root, replies)).1.len() <= replies.len(),
{
    broadcast use {lemma_said_reads, lemma_linked_reads};

}

/// So it is with `prune_flow`.
pub broadcast proof fn lemma_prune_reads(root: Seq<char>, replies: Seq<ReplyView>)
    ensures
        (#[trigger] listing::prune_flow(root, replies)).1.len() <= replies.len(),
{
    broadcast use lemma_git_output_reads;

}

/// So it is with `managed_flow`.
pub broadcast proof fn lemma_managed_reads(root: Seq<char>, replies: Seq<ReplyView>)
    ensures
        (#[trigger] listing::managed_flow(root, replies)).1.len() <= replies.len(),
{
    broadcast use lemma_git_output_reads;

}

/// So it is with `bases_flow`.
pub broadcast proof fn lemma_bases_reads(directory: Seq<char>, replies: Seq<ReplyView>)
    ensures
        (#[trigger] listing::bases_flow(directory, replies)).1.len() <= replies.len(),
{
    broadcast use {lemma_discover_reads, lemma_git_output_reads};

}

/// So it is with `current_base_flow`.
pub broadcast proof fn lemma_current_base_reads(directory: Seq<char>, replies: Seq<ReplyView>)
    ensures
        (#[trigger] listing::current_base_flow(directory, replies)).1.len() <= replies.len(),
{
    broadcast use lemma_git_status_reads;

}

/// So it is with `command_flow`.
pub broadcast proof fn lemma_command_reads(
    root: Seq<char>,
    worktree: Seq<char>,
    command: Seq<char>,
    replies: Seq<ReplyView>,
)
    ensures
        (#[trigger] setup::command_flow(root, worktree, command, replies)).1.len() <= replies.len(),
{
    broadcast use lemma_ask_reads;

}

/// So it is with `commands_flow`.
pub broadcast proof fn lemma_commands_reads(
    root: Seq<char>,
    worktree: Seq<char>,
    commands: Seq<Seq<char>>,
    replies: Seq<ReplyView>,
)
    ensures
        (#[trigger] setup::commands_flow(
            root,
            worktree,
            commands,
            replies,
        )).1.len() <= replies.len(),
    decreases commands.len(),
{
    broadcast use lemma_command_reads;

    if commands.len() > 0 {
        if let (Ok(_), rest) = setup::command_flow(root, worktree, commands[0], replies) {
            lemma_commands_reads(root, worktree, commands.drop_first(), rest);
        }
    }
}

/// So it is with `setup_flow`.
pub broadcast proof fn lemma_setup_reads(
    root: Seq<char>,
    worktree: Seq<char>,
    commands: Seq<Seq<char>>,
    replies: Seq<ReplyView>,
)
    ensures
        (#[trigger] setup::setup_flow(root, worktree, commands, replies)).1.len() <= replies.len(),
{
    broadcast use lemma_commands_reads;

}

/// So it is with `background_flow`.
pub broadcast proof fn lemma_background_reads(
    root: Seq<char>,
    worktree: Seq<char>,
    name: Seq<char>,
    commands: Seq<Seq<char>>,
    replies: Seq<ReplyView>,
)
    ensures
        (#[trigger] setup::background_flow(
            root,
            worktree,
            name,
            commands,
            replies,
        )).1.len() <= replies.len(),
{
    broadcast use lemma_git_path_reads;

}

/// So it is with `do_flow`.
pub broadcast proof fn lemma_do_reads(
    request: RequestView,
    complaint: Seq<char>,
    replies: Seq<ReplyView>,
)
    ensures
        (#[trigger] setup::do_flow(request, complaint, replies)).1.len() <= replies.len(),
{
    broadcast use lemma_ask_reads;

}

/// So it is with `status_flow`.
pub broadcast proof fn lemma_status_reads(
    path: Seq<char>,
    contents: Seq<char>,
    replies: Seq<ReplyView>,
)
    ensures
        (#[trigger] setup::status_flow(path, contents, replies)).1.len() <= replies.len(),
{
    broadcast use lemma_do_reads;

}

/// So it is with `spawn_flow`.
pub broadcast proof fn lemma_spawn_reads(
    executable: Seq<char>,
    setup: BackgroundView,
    replies: Seq<ReplyView>,
)
    ensures
        (#[trigger] setup::spawn_flow(executable, setup, replies)).1.len() <= replies.len(),
{
    broadcast use {lemma_ask_reads, lemma_status_reads};

}

/// So it is with `start_flow`.
pub broadcast proof fn lemma_start_reads(
    executable: Seq<char>,
    setup: BackgroundView,
    replies: Seq<ReplyView>,
)
    ensures
        (#[trigger] setup::start_flow(executable, setup, replies)).1.len() <= replies.len(),
{
    broadcast use {lemma_do_reads, lemma_status_reads, lemma_spawn_reads};

}

/// So it is with `worker_flow`.
pub broadcast proof fn lemma_worker_reads(
    root: Seq<char>,
    worktree: Seq<char>,
    status_path: Seq<char>,
    commands: Seq<Seq<char>>,
    replies: Seq<ReplyView>,
)
    ensures
        (#[trigger] setup::worker_flow(
            root,
            worktree,
            status_path,
            commands,
            replies,
        )).1.len() <= replies.len(),
{
    broadcast use {lemma_status_reads, lemma_setup_reads};

}

/// So it is with `remove_artifact_flow`.
pub broadcast proof fn lemma_remove_artifact_reads(path: Seq<char>, replies: Seq<ReplyView>)
    ensures
        (#[trigger] setup::remove_artifact_flow(path, replies)).1.len() <= replies.len(),
{
    broadcast use lemma_do_reads;

}

/// So it is with `remove_artifacts_flow`.
pub broadcast proof fn lemma_remove_artifacts_reads(
    root: Seq<char>,
    name: Seq<char>,
    replies: Seq<ReplyView>,
)
    ensures
        (#[trigger] setup::remove_artifacts_flow(root, name, replies)).1.len() <= replies.len(),
{
    broadcast use {lemma_git_path_reads, lemma_remove_artifact_reads};

}

/// So it is with `any_commit_flow`.
pub broadcast proof fn lemma_any_commit_reads(root: Seq<char>, replies: Seq<ReplyView>)
    ensures
        (#[trigger] create::any_commit_flow(root, replies)).1.len() <= replies.len(),
{
    broadcast use lemma_git_status_reads;

}

/// So it is with `head_flow`.
pub broadcast proof fn lemma_head_reads(root: Seq<char>, replies: Seq<ReplyView>)
    ensures
        (#[trigger] create::head_flow(root, replies)).1.len() <= replies.len(),
{
    broadcast use {lemma_git_status_reads, lemma_any_commit_reads};

}

/// So it is with `base_flow`.
pub broadcast proof fn lemma_base_reads(root: Seq<char>, base: BaseView, replies: Seq<ReplyView>)
    ensures
        (#[trigger] create::base_flow(root, base, replies)).1.len() <= replies.len(),
{
    broadcast use lemma_git_status_reads;

}

/// So it is with `branch_flow`.
pub broadcast proof fn lemma_branch_reads(root: Seq<char>, name: Seq<char>, replies: Seq<ReplyView>)
    ensures
        (#[trigger] create::branch_flow(root, name, replies)).1.len() <= replies.len(),
{
    broadcast use lemma_ask_reads;

}

/// So it is with `target_flow`.
pub broadcast proof fn lemma_target_reads(path: Seq<char>, replies: Seq<ReplyView>)
    ensures
        (#[trigger] create::target_flow(path, replies)).1.len() <= replies.len(),
{
    broadcast use lemma_ask_reads;

}

/// So it is with `config_flow`.
pub broadcast proof fn lemma_config_reads(root: Seq<char>, replies: Seq<ReplyView>)
    ensures
        (#[trigger] create::config_flow(root, replies)).1.len() <= replies.len(),
{
    broadcast use lemma_ask_reads;

}

/// So it is with `check_flow`.
pub broadcast proof fn lemma_check_reads(
    directory: Seq<char>,
    name: Seq<char>,
    base: BaseView,
    replies: Seq<ReplyView>,
)
    ensures
        (#[trigger] create::check_flow(directory, name, base, replies)).1.len() <= replies.len(),
{
    broadcast use {
        lemma_discover_reads,
        lemma_head_reads,
        lemma_base_reads,
        lemma_branch_reads,
        lemma_target_reads,
        lemma_config_reads,
        lemma_primary_reads,
    };

}

/// So it is with `ignore_flow`.
pub broadcast proof fn lemma_ignore_reads(root: Seq<char>, replies: Seq<ReplyView>)
    ensures
        (#[trigger] create::ignore_flow(root, replies)).1.len() <= replies.len(),
{
    broadcast use {lemma_git_path_reads, lemma_ask_reads, lemma_do_reads};

}

/// So it is with `add_flow`.
pub broadcast proof fn lemma_add_reads(
    root: Seq<char>,
    name: Seq<char>,
    path: Seq<char>,
    base: BaseView,
    replies: Seq<ReplyView>,
)
    ensures
        (#[trigger] create::add_flow(root, name, path, base, replies)).1.len() <= replies.len(),
{
    broadcast use lemma_ask_reads;

}

/// So it is with `furnish_flow`.
pub broadcast proof fn lemma_furnish_reads(site: SiteView, name: Seq<char>, replies: Seq<ReplyView>)
    ensures
        (#[trigger] create::furnish_flow(site, name, replies)).1.len() <= replies.len(),
{
    broadcast use {lemma_setup_reads, lemma_background_reads};

}

/// So it is with `create_flow`.
pub broadcast proof fn lemma_create_reads(
    directory: Seq<char>,
    name: Seq<char>,
    base: BaseView,
    replies: Seq<ReplyView>,
)
    ensures
        (#[trigger] create::create_flow(directory, name, base, replies)).1.len() <= replies.len(),
{
    broadcast use {
        lemma_check_reads,
        lemma_ignore_reads,
        lemma_add_reads,
        lemma_furnish_reads,
    };

}

/// So it is with `selector_flow`.
pub broadcast proof fn lemma_selector_reads(
    wording: WordingView,
    arguments: Seq<Seq<char>>,
    rows: Seq<char>,
    replies: Seq<ReplyView>,
)
    ensures
        (#[trigger] select::selector_flow(
            wording,
            arguments,
            rows,
            replies,
        )).1.len() <= replies.len(),
{
    broadcast use lemma_ask_reads;

}

/// So it is with `select_base_flow`.
pub broadcast proof fn lemma_select_base_reads(
    bases: Seq<BaseView>,
    default_base: Option<BaseView>,
    replies: Seq<ReplyView>,
)
    ensures
        (#[trigger] select::select_base_flow(
            bases,
            default_base,
            replies,
        )).1.len() <= replies.len(),
{
    broadcast use lemma_selector_reads;

}

/// So it is with `terminal_flow`.
pub broadcast proof fn lemma_terminal_reads(replies: Seq<ReplyView>)
    ensures
        (#[trigger] select::terminal_flow(replies)).1.len() <= replies.len(),
{
    broadcast use lemma_ask_reads;

}

/// So it is with `prompt_base_flow`.
pub broadcast proof fn lemma_prompt_base_reads(directory: Seq<char>, replies: Seq<ReplyView>)
    ensures
        (#[trigger] select::prompt_base_flow(directory, replies)).1.len() <= replies.len(),
{
    broadcast use {
        lemma_terminal_reads,
        lemma_bases_reads,
        lemma_current_base_reads,
        lemma_select_base_reads,
    };

}

/// So it is with `remove_directory_flow`.
pub broadcast proof fn lemma_remove_directory_reads(
    root: Seq<char>,
    path: Seq<char>,
    force: bool,
    replies: Seq<ReplyView>,
)
    ensures
        (#[trigger] remove::remove_directory_flow(
            root,
            path,
            force,
            replies,
        )).1.len() <= replies.len(),
{
    broadcast use lemma_ask_reads;

}

/// So it is with `delete_branch_flow`.
pub broadcast proof fn lemma_delete_branch_reads(
    root: Seq<char>,
    branch: Seq<char>,
    force: bool,
    replies: Seq<ReplyView>,
)
    ensures
        (#[trigger] remove::delete_branch_flow(
            root,
            branch,
            force,
            replies,
        )).1.len() <= replies.len(),
{
    broadcast use lemma_git_status_reads;

}

/// So it is with `remove_flow`.
pub broadcast proof fn lemma_remove_reads(
    root: Seq<char>,
    worktree: ManagedView,
    force: bool,
    replies: Seq<ReplyView>,
)
    ensures
        (#[trigger] remove::remove_flow(root, worktree, force, replies)).1.len() <= replies.len(),
{
    broadcast use {
        lemma_remove_directory_reads,
        lemma_remove_artifacts_reads,
        lemma_delete_branch_reads,
    };

}

/// So it is with `print_flow`.
pub broadcast proof fn lemma_print_reads(line: Seq<char>, replies: Seq<ReplyView>)
    ensures
        (#[trigger] remove::print_flow(line, replies)).1.len() <= replies.len(),
{
    broadcast use lemma_ask_reads;

}

/// So it is with `report_flow`.
pub broadcast proof fn lemma_report_reads(line: Seq<char>, replies: Seq<ReplyView>)
    ensures
        (#[trigger] remove::report_flow(line, replies)).1.len() <= replies.len(),
{
    broadcast use lemma_ask_reads;

}

/// So it is with `attempt_flow`.
pub broadcast proof fn lemma_attempt_reads(
    root: Seq<char>,
    worktree: ManagedView,
    force: bool,
    replies: Seq<ReplyView>,
)
    ensures
        (#[trigger] remove::attempt_flow(root, worktree, force, replies)).1.len() <= replies.len(),
{
    broadcast use {lemma_remove_reads, lemma_report_reads, lemma_print_reads};

}

/// So it is with `attempts_flow`.
pub broadcast proof fn lemma_attempts_reads(
    root: Seq<char>,
    worktrees: Seq<ManagedView>,
    force: bool,
    replies: Seq<ReplyView>,
)
    ensures
        (#[trigger] remove::attempts_flow(
            root,
            worktrees,
            force,
            replies,
        )).1.len() <= replies.len(),
    decreases worktrees.len(),
{
    broadcast use lemma_attempt_reads;

    if worktrees.len() > 0 {
        lemma_attempts_reads(root, worktrees.drop_last(), force, replies);
    }
}

/// So it is with `removals_flow`.
pub broadcast proof fn lemma_removals_reads(
    root: Seq<char>,
    worktrees: Seq<ManagedView>,
    force: bool,
    replies: Seq<ReplyView>,
)
    ensures
        (#[trigger] remove::removals_flow(
            root,
            worktrees,
            force,
            replies,
        )).1.len() <= replies.len(),
{
    broadcast use lemma_attempts_reads;

}

/// So it is with `select_rows_flow`.
pub broadcast proof fn lemma_select_rows_reads(
    worktrees: Seq<ManagedView>,
    current: Option<ManagedView>,
    replies: Seq<ReplyView>,
)
    ensures
        (#[trigger] clean::select_rows_flow(worktrees, current, replies)).1.len() <= replies.len(),
{
    broadcast use lemma_selector_reads;

}

/// So it is with `canonical_flow`.
pub broadcast proof fn lemma_canonical_reads(directory: Seq<char>, replies: Seq<ReplyView>)
    ensures
        (#[trigger] clean::canonical_flow(directory, replies)).1.len() <= replies.len(),
{
    broadcast use lemma_ask_reads;

}

/// So it is with `select_flow`.
pub broadcast proof fn lemma_select_reads(
    directory: Seq<char>,
    worktrees: Seq<ManagedView>,
    names: Seq<Seq<char>>,
    replies: Seq<ReplyView>,
)
    ensures
        (#[trigger] clean::select_flow(
            directory,
            worktrees,
            names,
            replies,
        )).1.len() <= replies.len(),
{
    broadcast use {lemma_terminal_reads, lemma_canonical_reads, lemma_select_rows_reads};

}

/// So it is with `paths_flow`.
pub broadcast proof fn lemma_paths_reads(worktrees: Seq<ManagedView>, replies: Seq<ReplyView>)
    ensures
        (#[trigger] clean::paths_flow(worktrees, replies)).1.len() <= replies.len(),
    decreases worktrees.len(),
{
    broadcast use lemma_print_reads;

    if worktrees.len() > 0 {
        if let (Ok(_), rest) = remove::print_flow(worktrees[0].path, replies) {
            lemma_paths_reads(worktrees.drop_first(), rest);
        }
    }
}

/// So it is with `confirm_flow`.
pub broadcast proof fn lemma_confirm_reads(
    worktrees: Seq<ManagedView>,
    force: bool,
    replies: Seq<ReplyView>,
)
    ensures
        (#[trigger] clean::confirm_flow(worktrees, force, replies)).1.len() <= replies.len(),
{
    broadcast use {
        lemma_terminal_reads,
        lemma_paths_reads,
        lemma_do_reads,
        lemma_ask_reads,
    };

}

/// So it is with `approve_flow`.
pub broadcast proof fn lemma_approve_reads(
    directory: Seq<char>,
    worktrees: Seq<ManagedView>,
    names: Seq<Seq<char>>,
    force: bool,
    replies: Seq<ReplyView>,
)
    ensures
        (#[trigger] clean::approve_flow(
            directory,
            worktrees,
            names,
            force,
            replies,
        )).1.len() <= replies.len(),
{
    broadcast use {lemma_select_reads, lemma_confirm_reads};

}

/// So it is with `clean_flow`.
pub broadcast proof fn lemma_clean_reads(
    directory: Seq<char>,
    names: Seq<Seq<char>>,
    force: bool,
    replies: Seq<ReplyView>,
)
    ensures
        (#[trigger] clean::clean_flow(directory, names, force, replies)).1.len() <= replies.len(),
{
    broadcast use {
        lemma_main_root_reads,
        lemma_prune_reads,
        lemma_managed_reads,
        lemma_print_reads,
        lemma_approve_reads,
        lemma_removals_reads,
    };

}

/// So it is with `told_flow`.
pub broadcast proof fn lemma_told_reads(
    request: RequestView,
    complaint: Seq<char>,
    replies: Seq<ReplyView>,
)
    ensures
        (#[trigger] cli::told_flow(request, complaint, replies)).1.len() <= replies.len(),
{
    broadcast use lemma_ask_reads;

}

/// So it is with `name_flow`.
pub broadcast proof fn lemma_name_reads(name: Option<Seq<char>>, replies: Seq<ReplyView>)
    ensures
        (#[trigger] cli::name_flow(name, replies)).1.len() <= replies.len(),
{
    broadcast use lemma_ask_reads;

}

/// So it is with `launch_flow`.
pub broadcast proof fn lemma_launch_reads(
    background: Option<BackgroundView>,
    replies: Seq<ReplyView>,
)
    ensures
        (#[trigger] cli::launch_flow(background, replies)).1.len() <= replies.len(),
{
    broadcast use {lemma_told_reads, lemma_start_reads};

}

/// So it is with `warn_flow`.
pub broadcast proof fn lemma_warn_reads(config_missing: bool, replies: Seq<ReplyView>)
    ensures
        (#[trigger] cli::warn_flow(config_missing, replies)).1.len() <= replies.len(),
{
    broadcast use lemma_report_reads;

}

/// So it is with `note_path_flow`.
pub broadcast proof fn lemma_note_path_reads(
    file: Option<Seq<char>>,
    path: Seq<char>,
    replies: Seq<ReplyView>,
)
    ensures
        (#[trigger] cli::note_path_flow(file, path, replies)).1.len() <= replies.len(),
{
    broadcast use lemma_do_reads;

}

/// So it is with `lines_flow`.
pub broadcast proof fn lemma_lines_reads(lines: Seq<Seq<char>>, replies: Seq<ReplyView>)
    ensures
        (#[trigger] cli::lines_flow(lines, replies)).1.len() <= replies.len(),
    decreases lines.len(),
{
    broadcast use lemma_print_reads;

    if lines.len() > 0 {
        if let (Ok(_), rest) = remove::print_flow(lines[0], replies) {
            lemma_lines_reads(lines.drop_first(), rest);
        }
    }
}

/// So it is with `conclude_flow`.
pub broadcast proof fn lemma_conclude_reads(
    outcome: OutcomeView,
    file: Option<Seq<char>>,
    replies: Seq<ReplyView>,
)
    ensures
        (#[trigger] cli::conclude_flow(outcome, file, replies)).1.len() <= replies.len(),
{
    broadcast use {
        lemma_launch_reads,
        lemma_warn_reads,
        lemma_note_path_reads,
        lemma_lines_reads,
    };

}

/// So it is with `new_worktree_flow`.
pub broadcast proof fn lemma_new_worktree_reads(
    directory: Seq<char>,
    name: Option<Seq<char>>,
    file: Option<Seq<char>>,
    replies: Seq<ReplyView>,
)
    ensures
        (#[trigger] cli::new_worktree_flow(
            directory,
            name,
            file,
            replies,
        )).1.len() <= replies.len(),
{
    broadcast use {
        lemma_prompt_base_reads,
        lemma_name_reads,
        lemma_create_reads,
        lemma_conclude_reads,
    };

}

/// So it is with `run_flow`.
pub broadcast proof fn lemma_run_reads(invocation: InvocationView, replies: Seq<ReplyView>)
    ensures
        (#[trigger] cli::run_flow(invocation, replies)).1.len() <= replies.len(),
{
    broadcast use {
        lemma_told_reads,
        lemma_clean_reads,
        lemma_print_reads,
        lemma_worker_reads,
        lemma_new_worktree_reads,
    };

}

/// So it is with every part of the program.
pub broadcast group group_reads {
    lemma_ask_reads,
    lemma_git_status_reads,
    lemma_git_output_reads,
    lemma_git_path_reads,
    lemma_discover_reads,
    lemma_main_root_reads,
    lemma_said_reads,
    lemma_linked_reads,
    lemma_primary_reads,
    lemma_prune_reads,
    lemma_managed_reads,
    lemma_bases_reads,
    lemma_current_base_reads,
    lemma_command_reads,
    lemma_commands_reads,
    lemma_setup_reads,
    lemma_background_reads,
    lemma_do_reads,
    lemma_status_reads,
    lemma_spawn_reads,
    lemma_start_reads,
    lemma_worker_reads,
    lemma_remove_artifact_reads,
    lemma_remove_artifacts_reads,
    lemma_any_commit_reads,
    lemma_head_reads,
    lemma_base_reads,
    lemma_branch_reads,
    lemma_target_reads,
    lemma_config_reads,
    lemma_check_reads,
    lemma_ignore_reads,
    lemma_add_reads,
    lemma_furnish_reads,
    lemma_create_reads,
    lemma_selector_reads,
    lemma_select_base_reads,
    lemma_terminal_reads,
    lemma_prompt_base_reads,
    lemma_remove_directory_reads,
    lemma_delete_branch_reads,
    lemma_remove_reads,
    lemma_print_reads,
    lemma_report_reads,
    lemma_attempt_reads,
    lemma_attempts_reads,
    lemma_removals_reads,
    lemma_select_rows_reads,
    lemma_canonical_reads,
    lemma_select_reads,
    lemma_paths_reads,
    lemma_confirm_reads,
    lemma_approve_reads,
    lemma_clean_reads,
    lemma_told_reads,
    lemma_name_reads,
    lemma_launch_reads,
    lemma_warn_reads,
    lemma_note_path_reads,
    lemma_lines_reads,
    lemma_conclude_reads,
    lemma_new_worktree_reads,
    lemma_run_reads,
}

} // verus!
