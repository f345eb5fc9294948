//! Git worktrees for agent work: a command that creates a worktree of a repository, with a branch
//! and a setup of its own, and one that removes such worktrees again.
//!
//! The library decides and the program around it acts. Each part of the program is a function of
//! the replies that it has had from the world outside ([`host`]), and its contract says what it
//! comes to for every sequence of replies: a value, a failure with its message, or the next
//! request. From the bottom up:
//!
//! - [`text`], [`path`], [`search`] and [`name`] are about strings, paths, lists and the names of
//!   worktrees;
//! - [`model`] holds the values that the program works with, and [`host`] its requests and replies;
//! - [`git`] and [`listing`] ask Git and read its answers;
//! - [`setup`], [`create`] and [`remove`] are the steps of a creation and of a removal;
//! - [`select`] and [`clean`] let the user choose, and [`cli`] is the whole program;
//! - [`laws`] states what holds of these together.

pub mod clean;
pub mod cli;
pub mod create;
pub mod git;
pub mod host;
pub mod laws;
pub mod listing;
pub mod model;
pub mod name;
pub mod path;
pub mod remove;
pub mod search;
pub mod select;
pub mod setup;
pub mod text;

pub use create::{
    create_and_setup_worktree, create_and_setup_worktree_from_base, load_config, CONFIG_FILE_NAME,
};
pub use git::main_worktree_root;
pub use listing::{
    current_worktree_base, derive_worktree_path, list_managed_worktrees, list_worktree_bases,
    prune_worktree_metadata,
};
pub use model::{
    BackgroundSetup, BranchOutcome, ManagedWorktree, WorktreeBase, WorktreeConfig, WorktreeOutcome,
};
pub use name::{generate_random_name, resolve_worktree_name, validate_worktree_name};
pub use remove::remove_worktree;
pub use setup::{
    run_background_setup_worker, start_background_setup, BACKGROUND_SETUP_WORKER_COMMAND,
    SETUP_REPOSITORY_ROOT_ENV,
};
