//! The values that the program works with.
//!
//! Each type that holds text has a view of the same shape over character sequences, which is
//! what the contracts speak of. Paths are text, as the module `path` reads it.

use vstd::prelude::*;
use crate::path;
use crate::text;

verus! {

/// What a new worktree starts from.
#[derive(Debug, PartialEq, Eq)]
pub enum WorktreeBase {
    /// The remote branch `origin/main`.
    OriginMain,
    /// A branch of the repository itself.
    LocalBranch(String),
}

/// The view of a [`WorktreeBase`].
pub enum BaseView {
    OriginMain,
    LocalBranch(Seq<char>),
}

impl DeepView for WorktreeBase {
    type V = BaseView;

    open spec fn deep_view(&self) -> BaseView {
        match self {
            WorktreeBase::OriginMain => BaseView::OriginMain,
            WorktreeBase::LocalBranch(branch) => BaseView::LocalBranch(branch@),
        }
    }
}

impl Clone for WorktreeBase {
    fn clone(&self) -> (copy: Self)
        ensures
            copy.deep_view() == self.deep_view(),
    {
        match self {
            WorktreeBase::OriginMain => WorktreeBase::OriginMain,
            WorktreeBase::LocalBranch(branch) => WorktreeBase::LocalBranch(branch.clone()),
        }
    }
}

impl BaseView {
    /// The full name of the Git reference.
    pub open spec fn reference_text(self) -> Seq<char> {
        match self {
            BaseView::OriginMain => "refs/remotes/origin/main"@,
            BaseView::LocalBranch(branch) => "refs/heads/"@ + branch,
        }
    }

    /// The name under which the base is shown.
    pub open spec fn shown(self) -> Seq<char> {
        match self {
            BaseView::OriginMain => "origin/main"@,
            BaseView::LocalBranch(branch) => branch,
        }
    }
}

impl WorktreeBase {
    /// The full name of the Git reference.
    pub fn reference(&self) -> (name: String)
        ensures
            name@ == self.deep_view().reference_text(),
            match self {
                WorktreeBase::OriginMain => name@ == "refs/remotes/origin/main"@,
                WorktreeBase::LocalBranch(branch) => name@ == "refs/heads/"@ + branch@,
            },
    {
        match self {
            WorktreeBase::OriginMain => "refs/remotes/origin/main".to_owned(),
            WorktreeBase::LocalBranch(branch) => "refs/heads/".to_owned().concat(branch.as_str()),
        }
    }

    /// The name under which the base is shown.
    pub fn label(&self) -> (name: String)
        ensures
            name@ == self.deep_view().shown(),
            match self {
                WorktreeBase::OriginMain => name@ == "origin/main"@,
                WorktreeBase::LocalBranch(branch) => name@ == branch@,
            },
    {
        match self {
            WorktreeBase::OriginMain => "origin/main".to_owned(),
            WorktreeBase::LocalBranch(branch) => branch.clone(),
        }
    }

    /// Whether two bases are the same.
    pub fn same(&self, other: &WorktreeBase) -> (answer: bool)
        ensures
            answer == (self.deep_view() == other.deep_view()),
    {
        match (self, other) {
            (WorktreeBase::OriginMain, WorktreeBase::OriginMain) => true,
            (WorktreeBase::LocalBranch(left), WorktreeBase::LocalBranch(right)) => text::same(
                left.as_str(),
                right.as_str(),
            ),
            _ => false,
        }
    }
}

/// What the configuration file asks to run in a new worktree.
#[derive(Debug, PartialEq, Eq)]
pub struct WorktreeConfig {
    /// The commands that run before the program returns.
    pub setup_commands: Vec<String>,
    /// The commands that a worker runs after it returned.
    pub background_setup_commands: Vec<String>,
}

/// The view of a [`WorktreeConfig`].
pub struct ConfigView {
    pub setup_commands: Seq<Seq<char>>,
    pub background_setup_commands: Seq<Seq<char>>,
}

impl DeepView for WorktreeConfig {
    type V = ConfigView;

    open spec fn deep_view(&self) -> ConfigView {
        ConfigView {
            setup_commands: self.setup_commands.deep_view(),
            background_setup_commands: self.background_setup_commands.deep_view(),
        }
    }
}

/// Commands for the worker, and the files through which it reports.
#[derive(Debug, Eq)]
pub struct BackgroundSetup {
    pub repository_root: String,
    pub worktree_path: String,
    pub commands: Vec<String>,
    pub log_path: String,
    pub status_path: String,
}

/// The view of a [`BackgroundSetup`].
pub struct BackgroundView {
    pub repository_root: Seq<char>,
    pub worktree_path: Seq<char>,
    pub commands: Seq<Seq<char>>,
    pub log_path: Seq<char>,
    pub status_path: Seq<char>,
}

impl DeepView for BackgroundSetup {
    type V = BackgroundView;

    open spec fn deep_view(&self) -> BackgroundView {
        BackgroundView {
            repository_root: self.repository_root@,
            worktree_path: self.worktree_path@,
            commands: self.commands.deep_view(),
            log_path: self.log_path@,
            status_path: self.status_path@,
        }
    }
}

impl BackgroundView {
    /// Whether two are the same: their paths count by their components.
    pub open spec fn alike(self, other: BackgroundView) -> bool {
        &&& path::components_of(self.repository_root) == path::components_of(other.repository_root)
        &&& path::components_of(self.worktree_path) == path::components_of(other.worktree_path)
        &&& self.commands == other.commands
        &&& path::components_of(self.log_path) == path::components_of(other.log_path)
        &&& path::components_of(self.status_path) == path::components_of(other.status_path)
    }
}

impl BackgroundSetup {
    /// Whether two are the same.
    pub fn same(&self, other: &BackgroundSetup) -> (answer: bool)
        ensures
            answer == self.deep_view().alike(other.deep_view()),
    {
        path::same_place(self.repository_root.as_str(), other.repository_root.as_str())
            && path::same_place(self.worktree_path.as_str(), other.worktree_path.as_str())
            && text::same_lists(&self.commands, &other.commands) && path::same_place(
            self.log_path.as_str(),
            other.log_path.as_str(),
        ) && path::same_place(self.status_path.as_str(), other.status_path.as_str())
    }
}

impl PartialEq for BackgroundSetup {
    fn eq(&self, other: &Self) -> (answer: bool) {
        self.same(other)
    }
}

impl vstd::std_specs::cmp::PartialEqSpecImpl for BackgroundSetup {
    open spec fn obeys_eq_spec() -> bool {
        true
    }

    open spec fn eq_spec(&self, other: &Self) -> bool {
        self.deep_view().alike(other.deep_view())
    }
}

/// A worktree that was created.
#[derive(Debug, Eq)]
pub struct WorktreeOutcome {
    pub name: String,
    pub path: String,
    /// Whether the repository has no configuration file.
    pub config_missing: bool,
    /// How many setup commands ran.
    pub setup_commands_run: usize,
    /// What is left for the worker.
    pub background_setup: Option<BackgroundSetup>,
}

/// The view of a [`WorktreeOutcome`].
pub struct OutcomeView {
    pub name: Seq<char>,
    pub path: Seq<char>,
    pub config_missing: bool,
    pub setup_commands_run: usize,
    pub background_setup: Option<BackgroundView>,
}

impl DeepView for WorktreeOutcome {
    type V = OutcomeView;

    open spec fn deep_view(&self) -> OutcomeView {
        OutcomeView {
            name: self.name@,
            path: self.path@,
            config_missing: self.config_missing,
            setup_commands_run: self.setup_commands_run,
            background_setup: self.background_setup.deep_view(),
        }
    }
}

impl OutcomeView {
    /// Whether two are the same: their paths count by their components.
    pub open spec fn alike(self, other: OutcomeView) -> bool {
        &&& self.name == other.name
        &&& path::components_of(self.path) == path::components_of(other.path)
        &&& self.config_missing == other.config_missing
        &&& self.setup_commands_run == other.setup_commands_run
        &&& match (self.background_setup, other.background_setup) {
            (Some(own), Some(theirs)) => own.alike(theirs),
            (None, None) => true,
            _ => false,
        }
    }
}

impl WorktreeOutcome {
    /// Whether two are the same.
    pub fn same(&self, other: &WorktreeOutcome) -> (answer: bool)
        ensures
            answer == self.deep_view().alike(other.deep_view()),
    {
        let same_setup: bool = match (&self.background_setup, &other.background_setup) {
            (Some(own), Some(theirs)) => own.same(theirs),
            (None, None) => true,
            _ => false,
        };
        text::same(self.name.as_str(), other.name.as_str()) && path::same_place(
            self.path.as_str(),
            other.path.as_str(),
        ) && self.config_missing == other.config_missing && self.setup_commands_run
            == other.setup_commands_run && same_setup
    }
}

impl PartialEq for WorktreeOutcome {
    fn eq(&self, other: &Self) -> (answer: bool) {
        self.same(other)
    }
}

impl vstd::std_specs::cmp::PartialEqSpecImpl for WorktreeOutcome {
    open spec fn obeys_eq_spec() -> bool {
        true
    }

    open spec fn eq_spec(&self, other: &Self) -> bool {
        self.deep_view().alike(other.deep_view())
    }
}

/// A worktree that stands in the directory for worktrees.
#[derive(Debug, Eq)]
pub struct ManagedWorktree {
    pub name: String,
    pub path: String,
    /// The branch that is checked out in it, unless its head is detached.
    pub branch: Option<String>,
}

/// The view of a [`ManagedWorktree`].
pub struct ManagedView {
    pub name: Seq<char>,
    pub path: Seq<char>,
    pub branch: Option<Seq<char>>,
}

impl DeepView for ManagedWorktree {
    type V = ManagedView;

    open spec fn deep_view(&self) -> ManagedView {
        ManagedView { name: self.name@, path: self.path@, branch: self.branch.deep_view() }
    }
}

impl ManagedView {
    /// Whether two worktrees are the same: their paths count by their components.
    pub open spec fn alike(self, other: ManagedView) -> bool {
        &&& self.name == other.name
        &&& path::components_of(self.path) == path::components_of(other.path)
        &&& self.branch == other.branch
    }
}

impl ManagedWorktree {
    /// Whether two worktrees are the same.
    pub fn same(&self, other: &ManagedWorktree) -> (answer: bool)
        ensures
            answer == self.deep_view().alike(other.deep_view()),
    {
        let same_branch: bool = match (&self.branch, &other.branch) {
            (Some(own), Some(theirs)) => text::same(own.as_str(), theirs.as_str()),
            (None, None) => true,
            _ => false,
        };
        text::same(self.name.as_str(), other.name.as_str()) && path::same_place(
            self.path.as_str(),
            other.path.as_str(),
        ) && same_branch
    }
}

impl PartialEq for ManagedWorktree {
    fn eq(&self, other: &Self) -> (answer: bool) {
        self.same(other)
    }
}

impl vstd::std_specs::cmp::PartialEqSpecImpl for ManagedWorktree {
    open spec fn obeys_eq_spec() -> bool {
        true
    }

    open spec fn eq_spec(&self, other: &Self) -> bool {
        self.deep_view().alike(other.deep_view())
    }
}

impl Clone for ManagedWorktree {
    fn clone(&self) -> (copy: Self)
        ensures
            copy.deep_view() == self.deep_view(),
    {
        let branch: Option<String> = match &self.branch {
            Some(branch) => Some(branch.clone()),
            None => None,
        };
        ManagedWorktree { name: self.name.clone(), path: self.path.clone(), branch }
    }
}

/// What became of a removed worktree's branch.
#[derive(Debug, PartialEq, Eq)]
pub enum BranchOutcome {
    /// Git deleted it.
    Deleted(String),
    /// Git refused to delete it.
    Kept { branch: String, reason: String },
    /// There was none.
    NoBranch,
}

/// The view of a [`BranchOutcome`].
pub enum BranchView {
    Deleted(Seq<char>),
    Kept { branch: Seq<char>, reason: Seq<char> },
    NoBranch,
}

impl DeepView for BranchOutcome {
    type V = BranchView;

    open spec fn deep_view(&self) -> BranchView {
        match self {
            BranchOutcome::Deleted(branch) => BranchView::Deleted(branch@),
            BranchOutcome::Kept { branch, reason } => BranchView::Kept {
                branch: branch@,
                reason: reason@,
            },
            BranchOutcome::NoBranch => BranchView::NoBranch,
        }
    }
}

impl Clone for BranchOutcome {
    fn clone(&self) -> (copy: Self)
        ensures
            copy.deep_view() == self.deep_view(),
    {
        match self {
            BranchOutcome::Deleted(branch) => BranchOutcome::Deleted(branch.clone()),
            BranchOutcome::Kept { branch, reason } => BranchOutcome::Kept {
                branch: branch.clone(),
                reason: reason.clone(),
            },
            BranchOutcome::NoBranch => BranchOutcome::NoBranch,
        }
    }
}

} // verus!
