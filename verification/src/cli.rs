//! The program as it is called from the command line.

use vstd::prelude::*;
use vstd::pervasive::unreached;
use crate::clean;
use crate::create;
use crate::host;
use crate::host::{Flow, Halt, Reply, ReplyView, Request, RequestView, Session};
use crate::model::{BackgroundView, OutcomeView, WorktreeOutcome};
use crate::name;
use crate::remove;
use crate::select;
use crate::setup;
use crate::text;

verus! {

/// The function for zsh and bash that creates a worktree and enters it.
pub const SHELL_INIT: &'static str = r#"wt() {
  local wt_path_file worktree_path wt_result
  wt_path_file="$(mktemp)" || return
  command worktree-manager --created-path-file "$wt_path_file" "$@"
  wt_result=$?
  if [ "$wt_result" -eq 0 ]; then
    worktree_path="$(cat "$wt_path_file")"
    wt_result=$?
    rm -f "$wt_path_file"
    [ "$wt_result" -eq 0 ] || return "$wt_result"
    cd -- "$worktree_path"
  else
    rm -f "$wt_path_file"
    return "$wt_result"
  fi
}"#;

/// What the command line asks for.
#[derive(Debug, PartialEq, Eq)]
pub struct Invocation {
    /// The subcommand; without one a worktree is created.
    pub command: Option<Subcommand>,
    /// The name for the new worktree.
    pub name: Option<String>,
    /// The file to write the path of the new worktree to.
    pub created_path_file: Option<String>,
}

/// What the command line asks for instead of a new worktree.
#[derive(Debug, PartialEq, Eq)]
pub enum Subcommand {
    /// Remove worktrees.
    Clean { names: Vec<String>, force: bool },
    /// Print the function for the shell.
    ShellInit,
    /// Be the worker.
    RunBackgroundSetup {
        repository_root: String,
        worktree_path: String,
        status_path: String,
        setup_commands: Vec<String>,
    },
}

/// The view of an [`Invocation`].
pub struct InvocationView {
    pub command: Option<SubcommandView>,
    pub name: Option<Seq<char>>,
    pub created_path_file: Option<Seq<char>>,
}

/// The view of a [`Subcommand`].
pub enum SubcommandView {
    Clean { names: Seq<Seq<char>>, force: bool },
    ShellInit,
    RunBackgroundSetup {
        repository_root: Seq<char>,
        worktree_path: Seq<char>,
        status_path: Seq<char>,
        setup_commands: Seq<Seq<char>>,
    },
}

impl DeepView for Subcommand {
    type V = SubcommandView;

    open spec fn deep_view(&self) -> SubcommandView {
        match self {
            Subcommand::Clean { names, force } => SubcommandView::Clean {
                names: names.deep_view(),
                force: *force,
            },
            Subcommand::ShellInit => SubcommandView::ShellInit,
            Subcommand::RunBackgroundSetup {
                repository_root,
                worktree_path,
                status_path,
                setup_commands,
            } => SubcommandView::RunBackgroundSetup {
                repository_root: repository_root@,
                worktree_path: worktree_path@,
                status_path: status_path@,
                setup_commands: setup_commands.deep_view(),
            },
        }
    }
}

impl DeepView for Invocation {
    type V = InvocationView;

    open spec fn deep_view(&self) -> InvocationView {
        InvocationView {
            command: self.command.deep_view(),
            name: self.name.deep_view(),
            created_path_file: self.created_path_file.deep_view(),
        }
    }
}

/// A text that the world tells, with the words before the error in the failure's message.
pub open spec fn told_flow(
    request: RequestView,
    complaint: Seq<char>,
    replies: Seq<ReplyView>,
) -> Flow<Seq<char>> {
    match host::ask_flow(request, replies) {
        (Err(halt), rest) => (Err(halt), rest),
        (Ok(reply), rest) => if reply is Failed {
            host::failed(complaint + ": "@ + reply->Failed_0, rest)
        } else {
            (Ok(reply->Text_0), rest)
        },
    }
}

/// A text that the world tells.
fn told<'a>(request: Request, complaint: &str, session: &mut Session<'a>) -> (result: Result<
    &'a String,
    Halt,
>)
    requires
        request is CurrentDirectory || request is CurrentExecutable,
    ensures
        (host::seen(result), final(session)@) == told_flow(
            request.deep_view(),
            complaint@,
            old(session)@,
        ),
{
    match session.ask(request)? {
        Reply::Text(told) => Ok(told),
        Reply::Failed(error) => Err(
            Halt::Failed(complaint.to_owned().concat(": ").concat(error.as_str())),
        ),
        _ => unreached(),
    }
}

/// The name of a new worktree: the one that is asked for, without white space around it, or one
/// that is made up where none is.
pub open spec fn name_flow(name: Option<Seq<char>>, replies: Seq<ReplyView>) -> Flow<Seq<char>> {
    match name {
        Some(input) if name::asked_name(input) is Some => (
            Ok(name::asked_name(input)->0),
            replies,
        ),
        _ => match host::ask_flow(RequestView::RandomName, replies) {
            (Err(halt), rest) => (Err(halt), rest),
            (Ok(reply), rest) => (Ok(reply->Text_0), rest),
        },
    }
}

/// The name of the new worktree.
pub fn choose_name(name: Option<&String>, session: &mut Session<'_>) -> (result: Result<
    String,
    Halt,
>)
    ensures
        (host::seen(result), final(session)@) == name_flow(name.deep_view(), old(session)@),
{
    if let Some(input) = name {
        if let Some(explicit) = name::explicit_name(input.as_str()) {
            return Ok(explicit.to_owned());
        }
    }
    match session.ask(Request::RandomName)? {
        Reply::Text(made_up) => Ok(made_up.clone()),
        _ => unreached(),
    }
}

/// The start of the worker, where there is something left for it.
pub open spec fn launch_flow(background: Option<BackgroundView>, replies: Seq<ReplyView>) -> Flow<
    Option<u32>,
> {
    match background {
        None => (Ok(None), replies),
        Some(setup) => match told_flow(
            RequestView::CurrentExecutable,
            "failed to locate current executable"@,
            replies,
        ) {
            (Err(halt), rest) => (Err(halt), rest),
            (Ok(executable), rest) => match setup::start_flow(executable, setup, rest) {
                (Err(halt), rest) => (Err(halt), rest),
                (Ok(process), rest) => (Ok(Some(process)), rest),
            },
        },
    }
}

/// Starts the worker, where there is something left for it.
fn launch(outcome: &WorktreeOutcome, session: &mut Session<'_>) -> (result: Result<
    Option<u32>,
    Halt,
>)
    ensures
        (host::seen(result), final(session)@) == launch_flow(
            outcome.deep_view().background_setup,
            old(session)@,
        ),
{
    match &outcome.background_setup {
        None => Ok(None),
        Some(setup) => {
            let executable = told(
                Request::CurrentExecutable,
                "failed to locate current executable",
                session,
            )?;
            let process: u32 = setup::start_background_setup(
                executable.as_str(),
                setup,
                session,
            )?;
            Ok(Some(process))
        },
    }
}

/// The lines that tell what was created.
pub open spec fn summary(outcome: OutcomeView, process: Option<u32>) -> Seq<Seq<char>> {
    let created = seq![
        "created worktree '"@ + outcome.name + "'"@,
        "path: "@ + outcome.path,
    ];
    let ran = if outcome.setup_commands_run > 0 {
        seq!["ran "@ + text::decimal(outcome.setup_commands_run as nat) + " setup command(s)"@]
    } else {
        Seq::empty()
    };
    let started = match (outcome.background_setup, process) {
        (Some(setup), Some(process)) => seq![
            "started "@ + text::decimal(setup.commands.len())
                + " background setup command(s) (pid "@ + text::decimal(process as nat) + ")"@,
            "setup status: "@ + setup.status_path,
            "setup log: "@ + setup.log_path,
        ],
        _ => Seq::empty(),
    };
    created + ran + started
}

/// The lines that tell what was created.
pub fn summary_lines(outcome: &WorktreeOutcome, process: Option<u32>) -> (lines: Vec<String>)
    ensures
        lines.deep_view() == summary(outcome.deep_view(), process),
{
    let mut lines: Vec<String> = Vec::new();
    lines.push("created worktree '".to_owned().concat(outcome.name.as_str()).concat("'"));
    lines.push("path: ".to_owned().concat(outcome.path.as_str()));
    if outcome.setup_commands_run > 0 {
        lines.push(
            "ran ".to_owned().concat(
                text::decimal_text(outcome.setup_commands_run as u64).as_str(),
            ).concat(" setup command(s)"),
        );
    }
    if let (Some(setup), Some(process)) = (&outcome.background_setup, process) {
        assert(setup.commands.deep_view().len() == setup.commands.len());
        lines.push(
            "started ".to_owned().concat(
                text::decimal_text(setup.commands.len() as u64).as_str(),
            ).concat(" background setup command(s) (pid ").concat(
                text::decimal_text(process as u64).as_str(),
            ).concat(")"),
        );
        lines.push("setup status: ".to_owned().concat(setup.status_path.as_str()));
        lines.push("setup log: ".to_owned().concat(setup.log_path.as_str()));
    }
    assert(lines.deep_view() =~= summary(outcome.deep_view(), process));
    lines
}

/// Lines on the standard output.
pub open spec fn lines_flow(lines: Seq<Seq<char>>, replies: Seq<ReplyView>) -> Flow<()>
    decreases lines.len(),
{
    if lines.len() == 0 {
        (Ok(()), replies)
    } else {
        match remove::print_flow(lines[0], replies) {
            (Err(halt), rest) => (Err(halt), rest),
            (Ok(_), rest) => lines_flow(lines.drop_first(), rest),
        }
    }
}

/// Writes the lines to the standard output.
fn print_lines(lines: &Vec<String>, session: &mut Session<'_>) -> (result: Result<(), Halt>)
    ensures
        (host::seen(result), final(session)@) == lines_flow(lines.deep_view(), old(session)@),
{
    let mut index: usize = 0;
    assert(lines.deep_view().skip(0) =~= lines.deep_view());
    while index < lines.len()
        invariant
            index <= lines.len(),
            lines_flow(lines.deep_view(), old(session)@) == lines_flow(
                lines.deep_view().skip(index as int),
                session@,
            ),
        decreases lines.len() - index,
    {
        let ghost left = lines.deep_view().skip(index as int);
        assert(left[0] == lines@[index as int]@);
        assert(left.drop_first() =~= lines.deep_view().skip(index + 1));
        remove::print_line(lines[index].clone(), session)?;
        index += 1;
    }
    Ok(())
}

/// A warning, where the repository has no configuration file.
pub open spec fn warn_flow(config_missing: bool, replies: Seq<ReplyView>) -> Flow<()> {
    if config_missing {
        remove::report_flow(
            "warning: "@ + create::CONFIG_FILE_NAME@ + " not found; skipping setup commands"@,
            replies,
        )
    } else {
        (Ok(()), replies)
    }
}

/// Warns, where the repository has no configuration file.
fn warn(config_missing: bool, session: &mut Session<'_>) -> (result: Result<(), Halt>)
    ensures
        (host::seen(result), final(session)@) == warn_flow(config_missing, old(session)@),
{
    if config_missing {
        remove::report_line(
            "warning: ".to_owned().concat(create::CONFIG_FILE_NAME).concat(
                " not found; skipping setup commands",
            ),
            session,
        )
    } else {
        Ok(())
    }
}

/// The path of the new worktree in the file that is asked for.
pub open spec fn note_path_flow(
    file: Option<Seq<char>>,
    path: Seq<char>,
    replies: Seq<ReplyView>,
) -> Flow<()> {
    match file {
        None => (Ok(()), replies),
        Some(file) => setup::do_flow(
            RequestView::Write { path: file, contents: path },
            "failed to write created worktree path to "@ + file,
            replies,
        ),
    }
}

/// Writes the path of the new worktree to the file that is asked for.
pub fn write_created_path(
    created_path_file: Option<&String>,
    worktree_path: &str,
    session: &mut Session<'_>,
) -> (result: Result<(), Halt>)
    ensures
        (host::seen(result), final(session)@) == note_path_flow(
            created_path_file.deep_view(),
            worktree_path@,
            old(session)@,
        ),
{
    match created_path_file {
        None => Ok(()),
        Some(file) => setup::perform(
            Request::Write { path: file.clone(), contents: worktree_path.to_owned() },
            "failed to write created worktree path to ".to_owned().concat(file.as_str()),
            session,
        ),
    }
}

/// All that follows the creation of a worktree.
pub open spec fn conclude_flow(
    outcome: OutcomeView,
    file: Option<Seq<char>>,
    replies: Seq<ReplyView>,
) -> Flow<()> {
    match launch_flow(outcome.background_setup, replies) {
        (Err(halt), rest) => (Err(halt), rest),
        (Ok(process), rest) => match warn_flow(outcome.config_missing, rest) {
            (Err(halt), rest) => (Err(halt), rest),
            (Ok(_), rest) => match note_path_flow(file, outcome.path, rest) {
                (Err(halt), rest) => (Err(halt), rest),
                (Ok(_), rest) => lines_flow(summary(outcome, process), rest),
            },
        },
    }
}

/// Does all that follows the creation of the worktree.
fn conclude(
    outcome: &WorktreeOutcome,
    created_path_file: Option<&String>,
    session: &mut Session<'_>,
) -> (result: Result<(), Halt>)
    ensures
        (host::seen(result), final(session)@) == conclude_flow(
            outcome.deep_view(),
            created_path_file.deep_view(),
            old(session)@,
        ),
{
    let process: Option<u32> = launch(outcome, session)?;
    warn(outcome.config_missing, session)?;
    write_created_path(created_path_file, outcome.path.as_str(), session)?;
    print_lines(&summary_lines(outcome, process), session)
}

/// A new worktree, unless the user cancels the selection of its base.
pub open spec fn new_worktree_flow(
    directory: Seq<char>,
    name: Option<Seq<char>>,
    file: Option<Seq<char>>,
    replies: Seq<ReplyView>,
) -> Flow<()> {
    match select::prompt_base_flow(directory, replies) {
        (Err(halt), rest) => (Err(halt), rest),
        (Ok(None), rest) => (Ok(()), rest),
        (Ok(Some(base)), rest) => match name_flow(name, rest) {
            (Err(halt), rest) => (Err(halt), rest),
            (Ok(name), rest) => match create::create_flow(directory, name, base, rest) {
                (Err(halt), rest) => (Err(halt), rest),
                (Ok(outcome), rest) => conclude_flow(outcome, file, rest),
            },
        },
    }
}

/// Creates a new worktree, unless the user cancels the selection of its base.
fn run_new_worktree(
    cwd: &str,
    name: Option<&String>,
    created_path_file: Option<&String>,
    session: &mut Session<'_>,
) -> (result: Result<(), Halt>)
    ensures
        (host::seen(result), final(session)@) == new_worktree_flow(
            cwd@,
            name.deep_view(),
            created_path_file.deep_view(),
            old(session)@,
        ),
{
    let base = match select::prompt_worktree_base(cwd, session)? {
        Some(base) => base,
        None => {
            return Ok(());
        },
    };
    let worktree_name: String = choose_name(name, session)?;
    let outcome = create::create_and_setup_worktree_from_base(
        cwd,
        worktree_name.as_str(),
        &base,
        session,
    )?;
    conclude(&outcome, created_path_file, session)
}

/// The whole program.
pub open spec fn run_flow(invocation: InvocationView, replies: Seq<ReplyView>) -> Flow<()> {
    match told_flow(RequestView::CurrentDirectory, "failed to determine cwd"@, replies) {
        (Err(halt), rest) => (Err(halt), rest),
        (Ok(directory), rest) => match invocation.command {
            Some(SubcommandView::Clean { names, force }) => clean::clean_flow(
                directory,
                names,
                force,
                rest,
            ),
            Some(SubcommandView::ShellInit) => remove::print_flow(SHELL_INIT@, rest),
            Some(
                SubcommandView::RunBackgroundSetup {
                    repository_root,
                    worktree_path,
                    status_path,
                    setup_commands,
                },
            ) => match setup::worker_flow(
                repository_root,
                worktree_path,
                status_path,
                setup_commands,
                rest,
            ) {
                (Err(halt), rest) => (Err(halt), rest),
                (Ok(_), rest) => (Ok(()), rest),
            },
            None => new_worktree_flow(
                directory,
                invocation.name,
                invocation.created_path_file,
                rest,
            ),
        },
    }
}

/// Runs the program on the replies that it has had.
pub fn run(invocation: &Invocation, session: &mut Session<'_>) -> (result: Result<(), Halt>)
    ensures
        (host::seen(result), final(session)@) == run_flow(invocation.deep_view(), old(session)@),
{
    let cwd = told(Request::CurrentDirectory, "failed to determine cwd", session)?;
    match &invocation.command {
        Some(Subcommand::Clean { names, force }) => clean::run_clean(
            cwd.as_str(),
            names,
            *force,
            session,
        ),
        Some(Subcommand::ShellInit) => remove::print_line(SHELL_INIT.to_owned(), session),
        Some(
            Subcommand::RunBackgroundSetup {
                repository_root,
                worktree_path,
                status_path,
                setup_commands,
            },
        ) => {
            let _ = setup::run_background_setup_worker(
                repository_root.as_str(),
                worktree_path.as_str(),
                status_path.as_str(),
                setup_commands,
                session,
            )?;
            Ok(())
        },
        None => run_new_worktree(
            cwd.as_str(),
            invocation.name.as_ref(),
            invocation.created_path_file.as_ref(),
            session,
        ),
    }
}

} // verus!
