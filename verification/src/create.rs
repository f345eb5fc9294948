//! The creation of a worktree.

use vstd::prelude::*;
use vstd::pervasive::unreached;
use crate::git;
use crate::host;
use crate::host::{Flow, Halt, HaltView, Reply, ReplyView, Request, RequestView, Session};
use crate::listing;
use crate::model::{
    BackgroundSetup, BackgroundView, BaseView, ConfigView, OutcomeView, WorktreeBase,
    WorktreeConfig, WorktreeOutcome,
};
use crate::name;
use crate::path;
use crate::setup;
use crate::text;

verus! {

/// The configuration file, at the root of the repository.
pub const CONFIG_FILE_NAME: &'static str = "agent-worktree.config.json";

/// The line of Git's exclude file that keeps worktrees out of Git's status.
pub const WORKTREE_IGNORE_PATTERN: &'static str = "/.worktrees/";

/// The repository has a commit, on a branch or elsewhere: Git lists one. Where Git cannot tell,
/// the checks that follow decide.
pub open spec fn any_commit_flow(root: Seq<char>, replies: Seq<ReplyView>) -> Flow<()> {
    match git::git_status_flow(root, seq!["rev-list"@, "--max-count=1"@, "--all"@], replies) {
        (Err(HaltView::Failed(_)), rest) => (Ok(()), rest),
        (Err(halt), rest) => (Err(halt), rest),
        (Ok(output), rest) => if output.succeeded() && output.stdout.len() == 0 {
            host::failed(
                "repository has no commits yet; create an initial commit first"@,
                rest,
            )
        } else {
            (Ok(()), rest)
        },
    }
}

/// Checks that the repository has a commit.
fn ensure_any_commit(repo_root: &str, session: &mut Session<'_>) -> (result: Result<(), Halt>)
    ensures
        (host::seen(result), final(session)@) == any_commit_flow(repo_root@, old(session)@),
{
    match git::git_status(
        repo_root,
        git::list3("rev-list", "--max-count=1", "--all"),
        session,
    ) {
        Ok(output) => if output.success() && output.stdout.len() == 0 {
            Err(
                Halt::Failed(
                    "repository has no commits yet; create an initial commit first".to_owned(),
                ),
            )
        } else {
            Ok(())
        },
        Err(Halt::Failed(_)) => Ok(()),
        Err(halt) => Err(halt),
    }
}

/// The head is there, or at least a commit: the head of a repository with commits may be a branch
/// that has none yet.
pub open spec fn head_flow(root: Seq<char>, replies: Seq<ReplyView>) -> Flow<()> {
    match git::git_status_flow(root, seq!["rev-parse"@, "--verify"@, "HEAD"@], replies) {
        (Err(HaltView::Failed(_)), rest) => host::failed(
            "repository has no commits yet; create an initial commit first"@,
            rest,
        ),
        (Err(halt), rest) => (Err(halt), rest),
        (Ok(output), rest) => if output.succeeded() {
            (Ok(()), rest)
        } else {
            any_commit_flow(root, rest)
        },
    }
}

/// Checks that the repository is not without commits.
pub fn ensure_head_exists(repo_root: &str, session: &mut Session<'_>) -> (result: Result<(), Halt>)
    ensures
        (host::seen(result), final(session)@) == head_flow(repo_root@, old(session)@),
{
    match git::git_status(repo_root, git::list3("rev-parse", "--verify", "HEAD"), session) {
        Ok(output) => if output.success() {
            Ok(())
        } else {
            ensure_any_commit(repo_root, session)
        },
        Err(Halt::Failed(_)) => Err(
            Halt::Failed(
                "repository has no commits yet; create an initial commit first".to_owned(),
            ),
        ),
        Err(halt) => Err(halt),
    }
}

/// The base is there and has a commit.
pub open spec fn base_flow(root: Seq<char>, base: BaseView, replies: Seq<ReplyView>) -> Flow<()> {
    match git::git_status_flow(
        root,
        seq![
            "rev-parse"@,
            "--verify"@,
            "--quiet"@,
            base.reference_text() + "^{commit}"@,
        ],
        replies,
    ) {
        (Err(halt), rest) => (Err(halt), rest),
        (Ok(output), rest) => if output.succeeded() {
            (Ok(()), rest)
        } else {
            host::failed(
                "base branch '"@ + base.shown() + "' does not exist or has no commits"@,
                rest,
            )
        },
    }
}

/// Checks that the base is there and has a commit.
pub fn ensure_base_exists(repo_root: &str, base: &WorktreeBase, session: &mut Session<'_>) -> (
result: Result<(), Halt>)
    ensures
        (host::seen(result), final(session)@) == base_flow(
            repo_root@,
            base.deep_view(),
            old(session)@,
        ),
{
    let commit: String = base.reference().concat("^{commit}");
    let output = git::git_status(
        repo_root,
        git::list4("rev-parse", "--verify", "--quiet", commit.as_str()),
        session,
    )?;
    if output.success() {
        Ok(())
    } else {
        Err(
            Halt::Failed(
                "base branch '".to_owned().concat(base.label().as_str()).concat(
                    "' does not exist or has no commits",
                ),
            ),
        )
    }
}

/// No branch has the name yet: Git ends with 1 where there is no such reference.
pub open spec fn branch_flow(
    root: Seq<char>,
    name: Seq<char>,
    replies: Seq<ReplyView>,
) -> Flow<()> {
    match host::ask_flow(
        RequestView::Git {
            directory: root,
            arguments: seq!["show-ref"@, "--verify"@, "--quiet"@, "refs/heads/"@ + name],
        },
        replies,
    ) {
        (Err(halt), rest) => (Err(halt), rest),
        (Ok(reply), rest) => if reply is Failed {
            host::failed("failed to check branch '"@ + name + "': "@ + reply->Failed_0, rest)
        } else if reply->Ended_0.succeeded() {
            host::failed("branch '"@ + name + "' already exists"@, rest)
        } else if reply->Ended_0.code == Some(1i32) {
            (Ok(()), rest)
        } else {
            host::failed(
                "failed to check branch '"@ + name + "': "@ + git::trimmed_text(
                    reply->Ended_0.stderr,
                ),
                rest,
            )
        },
    }
}

/// Checks that no branch has the name yet.
pub fn ensure_branch_available(repo_root: &str, worktree_name: &str, session: &mut Session<'_>) -> (
result: Result<(), Halt>)
    ensures
        (host::seen(result), final(session)@) == branch_flow(
            repo_root@,
            worktree_name@,
            old(session)@,
        ),
{
    let reference: String = "refs/heads/".to_owned().concat(worktree_name);
    match session.ask(
        Request::Git {
            directory: repo_root.to_owned(),
            arguments: git::list4("show-ref", "--verify", "--quiet", reference.as_str()),
        },
    )? {
        Reply::Failed(error) => Err(
            Halt::Failed(
                "failed to check branch '".to_owned().concat(worktree_name).concat("': ").concat(
                    error.as_str(),
                ),
            ),
        ),
        Reply::Ended(output) => {
            if output.success() {
                return Err(
                    Halt::Failed(
                        "branch '".to_owned().concat(worktree_name).concat("' already exists"),
                    ),
                );
            }
            if output.exited_with(1) {
                return Ok(());
            }
            Err(
                Halt::Failed(
                    "failed to check branch '".to_owned().concat(worktree_name).concat(
                        "': ",
                    ).concat(git::trimmed_lossy(&output.stderr).as_str()),
                ),
            )
        },
        _ => unreached(),
    }
}

/// Nothing stands at the path yet.
pub open spec fn target_flow(path: Seq<char>, replies: Seq<ReplyView>) -> Flow<()> {
    match host::ask_flow(RequestView::Exists { path }, replies) {
        (Err(halt), rest) => (Err(halt), rest),
        (Ok(reply), rest) => if reply->Answer_0 {
            host::failed("target path already exists: "@ + path, rest)
        } else {
            (Ok(()), rest)
        },
    }
}

/// Checks that nothing stands at the path yet.
pub fn ensure_target_path_available(worktree_path: &str, session: &mut Session<'_>) -> (result:
    Result<(), Halt>)
    ensures
        (host::seen(result), final(session)@) == target_flow(worktree_path@, old(session)@),
{
    match session.ask(Request::Exists { path: worktree_path.to_owned() })? {
        Reply::Answer(exists) => if *exists {
            Err(Halt::Failed("target path already exists: ".to_owned().concat(worktree_path)))
        } else {
            Ok(())
        },
        _ => unreached(),
    }
}

/// The configuration of a repository, where it has a configuration file.
pub open spec fn config_flow(root: Seq<char>, replies: Seq<ReplyView>) -> Flow<Option<ConfigView>> {
    let path = path::join_of(root, CONFIG_FILE_NAME@);
    match host::ask_flow(RequestView::Read { path }, replies) {
        (Err(halt), rest) => (Err(halt), rest),
        (Ok(reply), rest) => if reply is Absent {
            (Ok(None), rest)
        } else if reply is Failed {
            host::failed("failed to read "@ + path + ": "@ + reply->Failed_0, rest)
        } else {
            match host::ask_flow(RequestView::ParseConfig { contents: reply->Text_0 }, rest) {
                (Err(halt), rest) => (Err(halt), rest),
                (Ok(reply), rest) => if reply is Failed {
                    host::failed("failed to parse "@ + path + ": "@ + reply->Failed_0, rest)
                } else {
                    (Ok(Some(reply->Config_0)), rest)
                },
            }
        },
    }
}

/// Loads the configuration, where there is a configuration file.
pub fn load_config<'a>(repo_root: &str, session: &mut Session<'a>) -> (result: Result<
    Option<&'a WorktreeConfig>,
    Halt,
>)
    ensures
        (host::seen(result), final(session)@) == config_flow(repo_root@, old(session)@),
{
    let path: String = path::join(repo_root, CONFIG_FILE_NAME);
    let contents: &'a String = match session.ask(Request::Read { path: path.clone() })? {
        Reply::Text(contents) => contents,
        Reply::Absent => {
            return Ok(None);
        },
        Reply::Failed(error) => {
            return Err(
                Halt::Failed(
                    "failed to read ".to_owned().concat(path.as_str()).concat(": ").concat(
                        error.as_str(),
                    ),
                ),
            );
        },
        _ => {
            return unreached();
        },
    };
    match session.ask(Request::ParseConfig { contents: contents.clone() })? {
        Reply::Config(config) => Ok(Some(config)),
        Reply::Failed(error) => Err(
            Halt::Failed(
                "failed to parse ".to_owned().concat(path.as_str()).concat(": ").concat(
                    error.as_str(),
                ),
            ),
        ),
        _ => unreached(),
    }
}

/// Whether an exclude file keeps worktrees out of Git's status.
pub open spec fn excludes(contents: Seq<char>) -> bool {
    exists|i: int|
        0 <= i < text::lines_of(contents).len() && text::trimmed(
            #[trigger] text::lines_of(contents)[i],
        ) == WORKTREE_IGNORE_PATTERN@
}

/// An exclude file that does so, with the least added.
pub open spec fn excluding(contents: Seq<char>) -> Seq<char> {
    if excludes(contents) {
        contents
    } else {
        let separator = if contents.len() == 0 || contents.last() == '\n' {
            ""@
        } else {
            "\n"@
        };
        contents + separator + WORKTREE_IGNORE_PATTERN@ + "\n"@
    }
}

/// Whether the exclude file keeps worktrees out of Git's status.
pub fn is_excluding(contents: &str) -> (answer: bool)
    ensures
        answer == excludes(contents@),
{
    let lines = text::lines(contents);
    let mut index: usize = 0;
    while index < lines.len()
        invariant
            index <= lines.len(),
            lines.deep_view() == text::lines_of(contents@),
            forall|i: int|
                0 <= i < index ==> text::trimmed(#[trigger] text::lines_of(contents@)[i])
                    != WORKTREE_IGNORE_PATTERN@,
        decreases lines.len() - index,
    {
        assert(lines.deep_view()[index as int] == lines@[index as int]@);
        if text::same(text::trim(lines[index].as_str()), WORKTREE_IGNORE_PATTERN) {
            return true;
        }
        index += 1;
    }
    false
}

/// The exclude file with the pattern for worktrees in it.
pub fn add_exclusion(contents: &str) -> (updated: String)
    ensures
        updated@ == excluding(contents@),
{
    if is_excluding(contents) {
        return contents.to_owned();
    }
    let length: usize = contents.unicode_len();
    let separator: &str = if length == 0 || contents.get_char(length - 1) == '\n' {
        ""
    } else {
        "\n"
    };
    contents.to_owned().concat(separator).concat(WORKTREE_IGNORE_PATTERN).concat("\n")
}

/// The repository's own exclude file keeps worktrees out of Git's status.
pub open spec fn ignore_flow(root: Seq<char>, replies: Seq<ReplyView>) -> Flow<()> {
    match git::git_path_flow(root, "info/exclude"@, replies) {
        (Err(halt), rest) => (Err(halt), rest),
        (Ok(path), rest) => match host::ask_flow(RequestView::Read { path }, rest) {
            (Err(halt), rest) => (Err(halt), rest),
            (Ok(reply), rest) => if reply is Failed {
                host::failed(
                    "failed to read Git exclude file "@ + path + ": "@ + reply->Failed_0,
                    rest,
                )
            } else {
                let contents = if reply is Absent {
                    Seq::empty()
                } else {
                    reply->Text_0
                };
                if excludes(contents) {
                    (Ok(()), rest)
                } else {
                    setup::do_flow(
                        RequestView::Write { path, contents: excluding(contents) },
                        "failed to update Git exclude file "@ + path,
                        rest,
                    )
                }
            },
        },
    }
}

/// Has Git ignore the directory for worktrees, without a change to tracked files.
pub fn ensure_worktree_directory_is_ignored(repo_root: &str, session: &mut Session<'_>) -> (result:
    Result<(), Halt>)
    ensures
        (host::seen(result), final(session)@) == ignore_flow(repo_root@, old(session)@),
{
    let path: String = git::git_path(repo_root, "info/exclude", session)?;
    let contents: String = match session.ask(Request::Read { path: path.clone() })? {
        Reply::Text(contents) => contents.clone(),
        Reply::Absent => String::new(),
        Reply::Failed(error) => {
            return Err(
                Halt::Failed(
                    "failed to read Git exclude file ".to_owned().concat(path.as_str()).concat(
                        ": ",
                    ).concat(error.as_str()),
                ),
            );
        },
        _ => {
            return unreached();
        },
    };
    if is_excluding(contents.as_str()) {
        return Ok(());
    }
    let complaint: String = "failed to update Git exclude file ".to_owned().concat(path.as_str());
    setup::perform(
        Request::Write { path, contents: add_exclusion(contents.as_str()) },
        complaint,
        session,
    )
}

/// The arguments with which Git adds a worktree.
pub open spec fn add_arguments(
    name: Seq<char>,
    path: Seq<char>,
    base: BaseView,
) -> Seq<Seq<char>> {
    seq!["worktree"@, "add"@, "-b"@, name, path, base.reference_text()]
}

/// The addition of the worktree by Git.
pub open spec fn add_flow(
    root: Seq<char>,
    name: Seq<char>,
    path: Seq<char>,
    base: BaseView,
    replies: Seq<ReplyView>,
) -> Flow<()> {
    match host::ask_flow(
        RequestView::GitAttached {
            directory: root,
            arguments: add_arguments(name, path, base),
        },
        replies,
    ) {
        (Err(halt), rest) => (Err(halt), rest),
        (Ok(reply), rest) => if reply is Failed {
            host::failed("failed to start git worktree add: "@ + reply->Failed_0, rest)
        } else if reply->Ended_0.succeeded() {
            (Ok(()), rest)
        } else {
            host::failed("git worktree add failed with status "@ + reply->Ended_0.status, rest)
        },
    }
}

/// Has Git add the worktree, with a new branch of its name.
pub fn create_worktree(
    repo_root: &str,
    worktree_name: &str,
    worktree_path: &str,
    base: &WorktreeBase,
    session: &mut Session<'_>,
) -> (result: Result<(), Halt>)
    ensures
        (host::seen(result), final(session)@) == add_flow(
            repo_root@,
            worktree_name@,
            worktree_path@,
            base.deep_view(),
            old(session)@,
        ),
{
    let arguments: Vec<String> = vec![
        "worktree".to_owned(),
        "add".to_owned(),
        "-b".to_owned(),
        worktree_name.to_owned(),
        worktree_path.to_owned(),
        base.reference(),
    ];
    assert(arguments.deep_view() =~= add_arguments(
        worktree_name@,
        worktree_path@,
        base.deep_view(),
    ));
    match session.ask(Request::GitAttached { directory: repo_root.to_owned(), arguments })? {
        Reply::Failed(error) => Err(
            Halt::Failed("failed to start git worktree add: ".to_owned().concat(error.as_str())),
        ),
        Reply::Ended(output) => if output.success() {
            Ok(())
        } else {
            Err(
                Halt::Failed(
                    "git worktree add failed with status ".to_owned().concat(
                        output.status.as_str(),
                    ),
                ),
            )
        },
        _ => unreached(),
    }
}

/// A repository in which a worktree can be created.
pub struct Site<'a> {
    /// The root of the work tree that the worktree is created in.
    pub root: String,
    /// The root of the repository's primary checkout.
    pub main_root: String,
    pub config: Option<&'a WorktreeConfig>,
}

/// The view of a [`Site`].
pub struct SiteView {
    pub root: Seq<char>,
    pub main_root: Seq<char>,
    pub config: Option<ConfigView>,
}

impl<'a> DeepView for Site<'a> {
    type V = SiteView;

    open spec fn deep_view(&self) -> SiteView {
        SiteView {
            root: self.root@,
            main_root: self.main_root@,
            config: self.config.deep_view(),
        }
    }
}

/// All that is checked before anything is changed.
pub open spec fn check_flow(
    directory: Seq<char>,
    name: Seq<char>,
    base: BaseView,
    replies: Seq<ReplyView>,
) -> Flow<SiteView> {
    match name::name_error(name) {
        Some(message) => host::failed(message, replies),
        None => match git::discover_flow(directory, replies) {
            (Err(halt), rest) => (Err(halt), rest),
            (Ok(root), rest) => match head_flow(root, rest) {
                (Err(halt), rest) => (Err(halt), rest),
                (Ok(_), rest) => match base_flow(root, base, rest) {
                    (Err(halt), rest) => (Err(halt), rest),
                    (Ok(_), rest) => match branch_flow(root, name, rest) {
                        (Err(halt), rest) => (Err(halt), rest),
                        (Ok(_), rest) => match target_flow(
                            listing::worktree_path_of(root, name),
                            rest,
                        ) {
                            (Err(halt), rest) => (Err(halt), rest),
                            (Ok(_), rest) => match config_flow(root, rest) {
                                (Err(halt), rest) => (Err(halt), rest),
                                (Ok(config), rest) => match git::primary_flow(root, rest) {
                                    (Err(halt), rest) => (Err(halt), rest),
                                    (Ok(main_root), rest) => (
                                        Ok(SiteView { root, main_root, config }),
                                        rest,
                                    ),
                                },
                            },
                        },
                    },
                },
            },
        },
    }
}

/// Checks all that can be checked before anything is changed.
pub fn check_site<'a>(
    cwd: &str,
    worktree_name: &str,
    base: &WorktreeBase,
    session: &mut Session<'a>,
) -> (result: Result<Site<'a>, Halt>)
    ensures
        (host::seen(result), final(session)@) == check_flow(
            cwd@,
            worktree_name@,
            base.deep_view(),
            old(session)@,
        ),
{
    if let Err(message) = name::validate_worktree_name(worktree_name) {
        return Err(Halt::Failed(message));
    }
    let root: String = git::discover_git_context(cwd, session)?;
    ensure_head_exists(root.as_str(), session)?;
    ensure_base_exists(root.as_str(), base, session)?;
    ensure_branch_available(root.as_str(), worktree_name, session)?;
    let path: String = listing::derive_worktree_path(root.as_str(), worktree_name);
    ensure_target_path_available(path.as_str(), session)?;
    let config = load_config(root.as_str(), session)?;
    let main_root: String = git::primary_worktree_root(root.as_str(), session)?;
    Ok(Site { root, main_root, config })
}

/// What is left for the worker, with the repository that its commands are told.
pub open spec fn told_repository(
    background: Option<BackgroundView>,
    repository: Seq<char>,
) -> Option<BackgroundView> {
    match background {
        Some(setup) => Some(BackgroundView { repository_root: repository, ..setup }),
        None => None,
    }
}

/// The setup of a worktree that was added. Its commands are told the primary checkout; the worker's
/// files stand where Git keeps those of the work tree that the worktree is created in.
pub open spec fn furnish_flow(
    site: SiteView,
    name: Seq<char>,
    replies: Seq<ReplyView>,
) -> Flow<OutcomeView> {
    let path = listing::worktree_path_of(site.root, name);
    match site.config {
        None => (
            Ok(
                OutcomeView {
                    name,
                    path,
                    config_missing: true,
                    setup_commands_run: 0,
                    background_setup: None,
                },
            ),
            replies,
        ),
        Some(config) => match setup::setup_flow(
            site.main_root,
            path,
            config.setup_commands,
            replies,
        ) {
            (Err(halt), rest) => (Err(halt), rest),
            (Ok(count), rest) => match setup::background_flow(
                site.root,
                path,
                name,
                config.background_setup_commands,
                rest,
            ) {
                (Err(halt), rest) => (Err(halt), rest),
                (Ok(background), rest) => (
                    Ok(
                        OutcomeView {
                            name,
                            path,
                            config_missing: false,
                            setup_commands_run: count,
                            background_setup: told_repository(background, site.main_root),
                        },
                    ),
                    rest,
                ),
            },
        },
    }
}

/// Sets up the worktree that was added.
fn furnish(site: &Site<'_>, worktree_name: &str, path: String, session: &mut Session<'_>) -> (
result: Result<WorktreeOutcome, Halt>)
    requires
        path@ == listing::worktree_path_of(site.root@, worktree_name@),
    ensures
        (host::seen(result), final(session)@) == furnish_flow(
            site.deep_view(),
            worktree_name@,
            old(session)@,
        ),
{
    let name: String = worktree_name.to_owned();
    match site.config {
        None => Ok(
            WorktreeOutcome {
                name,
                path,
                config_missing: true,
                setup_commands_run: 0,
                background_setup: None,
            },
        ),
        Some(config) => {
            let setup_commands_run: usize = setup::run_setup_commands(
                site.main_root.as_str(),
                path.as_str(),
                &config.setup_commands,
                session,
            )?;
            let background = setup::background_setup_for_commands(
                site.root.as_str(),
                path.as_str(),
                worktree_name,
                &config.background_setup_commands,
                session,
            )?;
            let background_setup: Option<BackgroundSetup> = match background {
                Some(setup) => Some(
                    BackgroundSetup { repository_root: site.main_root.clone(), ..setup },
                ),
                None => None,
            };
            Ok(
                WorktreeOutcome {
                    name,
                    path,
                    config_missing: false,
                    setup_commands_run,
                    background_setup,
                },
            )
        },
    }
}

/// The creation of a worktree: the checks, the worktree itself, and its setup.
pub open spec fn create_flow(
    directory: Seq<char>,
    name: Seq<char>,
    base: BaseView,
    replies: Seq<ReplyView>,
) -> Flow<OutcomeView> {
    match check_flow(directory, name, base, replies) {
        (Err(halt), rest) => (Err(halt), rest),
        (Ok(site), rest) => match ignore_flow(site.root, rest) {
            (Err(halt), rest) => (Err(halt), rest),
            (Ok(_), rest) => match add_flow(
                site.root,
                name,
                listing::worktree_path_of(site.root, name),
                base,
                rest,
            ) {
                (Err(halt), rest) => (Err(halt), rest),
                (Ok(_), rest) => furnish_flow(site, name, rest),
            },
        },
    }
}

/// Creates a worktree from the base and sets it up.
pub fn create_and_setup_worktree_from_base(
    cwd: &str,
    worktree_name: &str,
    base: &WorktreeBase,
    session: &mut Session<'_>,
) -> (result: Result<WorktreeOutcome, Halt>)
    ensures
        (host::seen(result), final(session)@) == create_flow(
            cwd@,
            worktree_name@,
            base.deep_view(),
            old(session)@,
        ),
{
    let site = check_site(cwd, worktree_name, base, session)?;
    let path: String = listing::derive_worktree_path(site.root.as_str(), worktree_name);
    ensure_worktree_directory_is_ignored(site.root.as_str(), session)?;
    create_worktree(site.root.as_str(), worktree_name, path.as_str(), base, session)?;
    furnish(&site, worktree_name, path, session)
}

/// Creates a worktree from `origin/main` and sets it up.
pub fn create_and_setup_worktree(cwd: &str, worktree_name: &str, session: &mut Session<'_>) -> (
result: Result<WorktreeOutcome, Halt>)
    ensures
        (host::seen(result), final(session)@) == create_flow(
            cwd@,
            worktree_name@,
            BaseView::OriginMain,
            old(session)@,
        ),
{
    create_and_setup_worktree_from_base(cwd, worktree_name, &WorktreeBase::OriginMain, session)
}

} // verus!
