//! The commands that set a new worktree up: some before the program returns, some by a worker
//! that outlives it.

use vstd::prelude::*;
use vstd::pervasive::unreached;
use crate::git;
use crate::host;
use crate::host::{Flow, Halt, HaltView, Reply, ReplyView, Request, RequestView, Session};
use crate::model::{BackgroundSetup, BackgroundView};
use crate::path;
use crate::text;

verus! {

/// The environment variable that tells a setup command where the repository is.
pub const SETUP_REPOSITORY_ROOT_ENV: &'static str = "WORKTREE_MANAGER_REPO_ROOT";

/// The subcommand under which the program is the worker.
pub const BACKGROUND_SETUP_WORKER_COMMAND: &'static str = "__run-background-setup";

/// The directory of the worker's files, among Git's own.
pub const BACKGROUND_SETUP_DIRECTORY: &'static str = "worktree-manager/setup";

/// The program and the arguments with which a platform's shell runs a command.
pub open spec fn shell_words(windows: bool, command: Seq<char>) -> (Seq<char>, Seq<Seq<char>>) {
    if windows {
        ("cmd"@, seq!["/C"@, command])
    } else {
        ("sh"@, seq!["-c"@, command])
    }
}

/// The program and the arguments with which the platform's shell runs the command.
pub fn shell_command(windows: bool, setup_command: &str) -> (words: (String, Vec<String>))
    ensures
        words.deep_view() == shell_words(windows, setup_command@),
{
    if windows {
        ("cmd".to_owned(), git::list2("/C", setup_command))
    } else {
        ("sh".to_owned(), git::list2("-c", setup_command))
    }
}

/// One setup command, which has to end with success.
pub open spec fn command_flow(
    root: Seq<char>,
    worktree: Seq<char>,
    command: Seq<char>,
    replies: Seq<ReplyView>,
) -> Flow<()> {
    match host::ask_flow(
        RequestView::Shell {
            directory: worktree,
            command,
            variable: SETUP_REPOSITORY_ROOT_ENV@,
            value: root,
        },
        replies,
    ) {
        (Err(halt), rest) => (Err(halt), rest),
        (Ok(reply), rest) => if reply is Failed {
            host::failed(
                "failed to start setup command '"@ + command + "': "@ + reply->Failed_0,
                rest,
            )
        } else if reply->Ended_0.succeeded() {
            (Ok(()), rest)
        } else {
            host::failed(
                "setup command '"@ + command + "' failed with status "@ + reply->Ended_0.status,
                rest,
            )
        },
    }
}

/// Runs one setup command in the worktree.
pub fn run_setup_command(
    repo_root: &str,
    worktree_path: &str,
    setup_command: &str,
    session: &mut Session<'_>,
) -> (result: Result<(), Halt>)
    ensures
        (host::seen(result), final(session)@) == command_flow(
            repo_root@,
            worktree_path@,
            setup_command@,
            old(session)@,
        ),
{
    match session.ask(
        Request::Shell {
            directory: worktree_path.to_owned(),
            command: setup_command.to_owned(),
            variable: SETUP_REPOSITORY_ROOT_ENV.to_owned(),
            value: repo_root.to_owned(),
        },
    )? {
        Reply::Failed(error) => Err(
            Halt::Failed(
                "failed to start setup command '".to_owned().concat(setup_command).concat(
                    "': ",
                ).concat(error.as_str()),
            ),
        ),
        Reply::Ended(output) => if output.success() {
            Ok(())
        } else {
            Err(
                Halt::Failed(
                    "setup command '".to_owned().concat(setup_command).concat(
                        "' failed with status ",
                    ).concat(output.status.as_str()),
                ),
            )
        },
        _ => unreached(),
    }
}

/// Setup commands one after the other, until one of them does not end with success.
pub open spec fn commands_flow(
    root: Seq<char>,
    worktree: Seq<char>,
    commands: Seq<Seq<char>>,
    replies: Seq<ReplyView>,
) -> Flow<()>
    decreases commands.len(),
{
    if commands.len() == 0 {
        (Ok(()), replies)
    } else {
        match command_flow(root, worktree, commands[0], replies) {
            (Err(halt), rest) => (Err(halt), rest),
            (Ok(_), rest) => commands_flow(root, worktree, commands.drop_first(), rest),
        }
    }
}

/// All setup commands, and how many they are.
pub open spec fn setup_flow(
    root: Seq<char>,
    worktree: Seq<char>,
    commands: Seq<Seq<char>>,
    replies: Seq<ReplyView>,
) -> Flow<usize> {
    match commands_flow(root, worktree, commands, replies) {
        (Err(halt), rest) => (Err(halt), rest),
        (Ok(_), rest) => (Ok(commands.len() as usize), rest),
    }
}

/// Runs the setup commands one after the other, and tells how many there were.
pub fn run_setup_commands(
    repo_root: &str,
    worktree_path: &str,
    setup_commands: &[String],
    session: &mut Session<'_>,
) -> (result: Result<usize, Halt>)
    ensures
        (host::seen(result), final(session)@) == setup_flow(
            repo_root@,
            worktree_path@,
            setup_commands.deep_view(),
            old(session)@,
        ),
{
    let mut index: usize = 0;
    assert(setup_commands.deep_view().skip(0) =~= setup_commands.deep_view());
    while index < setup_commands.len()
        invariant
            index <= setup_commands.len(),
            commands_flow(
                repo_root@,
                worktree_path@,
                setup_commands.deep_view(),
                old(session)@,
            ) == commands_flow(
                repo_root@,
                worktree_path@,
                setup_commands.deep_view().skip(index as int),
                session@,
            ),
        decreases setup_commands.len() - index,
    {
        let ghost left = setup_commands.deep_view().skip(index as int);
        assert(left[0] == setup_commands@[index as int]@);
        assert(left.drop_first() =~= setup_commands.deep_view().skip(index + 1));
        run_setup_command(repo_root, worktree_path, setup_commands[index].as_str(), session)?;
        index += 1;
    }
    Ok(setup_commands.len())
}

/// The log or the status file of a worktree's worker in the directory of such files.
pub open spec fn artifact_path(
    directory: Seq<char>,
    name: Seq<char>,
    extension: Seq<char>,
) -> Seq<char> {
    path::join_of(directory, name + "."@ + extension)
}

/// The log or the status file of a worktree's worker in the directory of such files.
pub fn artifact(directory: &str, name: &str, extension: &str) -> (found: String)
    ensures
        found@ == artifact_path(directory@, name@, extension@),
{
    path::join(directory, name.to_owned().concat(".").concat(extension).as_str())
}

/// What is left for the worker, where the configuration has commands for it.
pub open spec fn background_flow(
    root: Seq<char>,
    worktree: Seq<char>,
    name: Seq<char>,
    commands: Seq<Seq<char>>,
    replies: Seq<ReplyView>,
) -> Flow<Option<BackgroundView>> {
    if commands.len() == 0 {
        (Ok(None), replies)
    } else {
        match git::git_path_flow(root, BACKGROUND_SETUP_DIRECTORY@, replies) {
            (Err(halt), rest) => (Err(halt), rest),
            (Ok(directory), rest) => (
                Ok(
                    Some(
                        BackgroundView {
                            repository_root: root,
                            worktree_path: worktree,
                            commands,
                            log_path: artifact_path(directory, name, "log"@),
                            status_path: artifact_path(directory, name, "status"@),
                        },
                    ),
                ),
                rest,
            ),
        }
    }
}

/// What is left for the worker, where there are commands for it.
pub fn background_setup_for_commands(
    repository_root: &str,
    worktree_path: &str,
    worktree_name: &str,
    commands: &[String],
    session: &mut Session<'_>,
) -> (result: Result<Option<BackgroundSetup>, Halt>)
    ensures
        (host::seen(result), final(session)@) == background_flow(
            repository_root@,
            worktree_path@,
            worktree_name@,
            commands.deep_view(),
            old(session)@,
        ),
{
    if commands.len() == 0 {
        return Ok(None);
    }
    let directory: String = git::git_path(repository_root, BACKGROUND_SETUP_DIRECTORY, session)?;
    Ok(
        Some(
            BackgroundSetup {
                repository_root: repository_root.to_owned(),
                worktree_path: worktree_path.to_owned(),
                commands: text::copy_all(commands),
                log_path: artifact(directory.as_str(), worktree_name, "log"),
                status_path: artifact(directory.as_str(), worktree_name, "status"),
            },
        ),
    )
}

/// A request that is done or fails, with the words before the error in the failure's message.
pub open spec fn do_flow(
    request: RequestView,
    complaint: Seq<char>,
    replies: Seq<ReplyView>,
) -> Flow<()> {
    match host::ask_flow(request, replies) {
        (Err(halt), rest) => (Err(halt), rest),
        (Ok(reply), rest) => if reply is Failed {
            host::failed(complaint + ": "@ + reply->Failed_0, rest)
        } else {
            (Ok(()), rest)
        },
    }
}

/// Has a request performed, and fails with the complaint and the error where that fails.
pub fn perform(request: Request, complaint: String, session: &mut Session<'_>) -> (result: Result<
    (),
    Halt,
>)
    ensures
        (host::seen(result), final(session)@) == do_flow(
            request.deep_view(),
            complaint@,
            old(session)@,
        ),
{
    match session.ask(request)? {
        Reply::Failed(error) => Err(Halt::Failed(complaint.concat(": ").concat(error.as_str()))),
        _ => Ok(()),
    }
}

/// A new status of the worker.
pub open spec fn status_flow(
    path: Seq<char>,
    contents: Seq<char>,
    replies: Seq<ReplyView>,
) -> Flow<()> {
    do_flow(
        RequestView::Write { path, contents },
        "failed to update background setup status "@ + path,
        replies,
    )
}

/// Writes the worker's status.
pub fn write_background_setup_status(
    status_path: &str,
    contents: String,
    session: &mut Session<'_>,
) -> (result: Result<(), Halt>)
    ensures
        (host::seen(result), final(session)@) == status_flow(
            status_path@,
            contents@,
            old(session)@,
        ),
{
    perform(
        Request::Write { path: status_path.to_owned(), contents },
        "failed to update background setup status ".to_owned().concat(status_path),
        session,
    )
}

/// The arguments that tell the worker one of its commands each.
pub open spec fn command_arguments(commands: Seq<Seq<char>>) -> Seq<Seq<char>> {
    commands.map_values(|command: Seq<char>| "--setup-command="@ + command)
}

/// The arguments with which the worker is started.
pub open spec fn worker_arguments(setup: BackgroundView) -> Seq<Seq<char>> {
    seq![
        BACKGROUND_SETUP_WORKER_COMMAND@,
        "--repository-root"@,
        setup.repository_root,
        "--worktree-path"@,
        setup.worktree_path,
        "--status-path"@,
        setup.status_path,
    ] + command_arguments(setup.commands)
}

/// The arguments with which the worker is started.
pub fn arguments_for_worker(setup: &BackgroundSetup) -> (arguments: Vec<String>)
    ensures
        arguments.deep_view() == worker_arguments(setup.deep_view()),
        arguments.len() == 7 + setup.commands.len(),
        forall|i: int|
            0 <= i < setup.commands.len() ==> arguments@[7 + i]@ == "--setup-command="@ + (
            #[trigger] setup.commands@[i])@,
{
    let mut arguments: Vec<String> = vec![
        BACKGROUND_SETUP_WORKER_COMMAND.to_owned(),
        "--repository-root".to_owned(),
        setup.repository_root.clone(),
        "--worktree-path".to_owned(),
        setup.worktree_path.clone(),
        "--status-path".to_owned(),
        setup.status_path.clone(),
    ];
    let ghost all = worker_arguments(setup.deep_view());
    let mut index: usize = 0;
    assert(arguments.deep_view() =~= all.take(7));
    while index < setup.commands.len()
        invariant
            index <= setup.commands.len(),
            all == worker_arguments(setup.deep_view()),
            arguments.deep_view() == all.take(7 + index),
        decreases setup.commands.len() - index,
    {
        let ghost before = arguments.deep_view();
        arguments.push("--setup-command=".to_owned().concat(setup.commands[index].as_str()));
        proof {
            let added = "--setup-command="@ + setup.commands@[index as int]@;
            assert(arguments.deep_view() =~= before.push(added));
            assert(all.take(7 + index + 1) =~= before.push(added));
        }
        index += 1;
    }
    assert(all.take(7 + index) =~= all);
    proof {
        assert(arguments.deep_view().len() == arguments.len());
        assert forall|i: int| 0 <= i < setup.commands.len() implies arguments@[7 + i]@
            == "--setup-command="@ + (#[trigger] setup.commands@[i])@ by {
            assert(arguments.deep_view()[7 + i] == arguments@[7 + i]@);
        }
    }
    arguments
}

/// The start of the worker: its files first, then the process. Where the process does not
/// start, the status says so too.
pub open spec fn start_flow(
    executable: Seq<char>,
    setup: BackgroundView,
    replies: Seq<ReplyView>,
) -> Flow<u32> {
    match path::parent_of(setup.log_path) {
        None => host::failed("background setup log path has no parent directory"@, replies),
        Some(directory) => match do_flow(
            RequestView::CreateDirectory { path: directory },
            "failed to create background setup directory "@ + directory,
            replies,
        ) {
            (Err(halt), rest) => (Err(halt), rest),
            (Ok(_), rest) => match status_flow(setup.status_path, "pending\n"@, rest) {
                (Err(halt), rest) => (Err(halt), rest),
                (Ok(_), rest) => match do_flow(
                    RequestView::CreateLog { path: setup.log_path },
                    "failed to create background setup log "@ + setup.log_path,
                    rest,
                ) {
                    (Err(halt), rest) => (Err(halt), rest),
                    (Ok(_), rest) => match do_flow(
                        RequestView::ShareLog { path: setup.log_path },
                        "failed to open background setup log "@ + setup.log_path
                            + " for stdout"@,
                        rest,
                    ) {
                        (Err(halt), rest) => (Err(halt), rest),
                        (Ok(_), rest) => spawn_flow(executable, setup, rest),
                    },
                },
            },
        },
    }
}

/// The start of the worker's process.
pub open spec fn spawn_flow(
    executable: Seq<char>,
    setup: BackgroundView,
    replies: Seq<ReplyView>,
) -> Flow<u32> {
    match host::ask_flow(
        RequestView::StartWorker { executable, arguments: worker_arguments(setup) },
        replies,
    ) {
        (Err(halt), rest) => (Err(halt), rest),
        (Ok(reply), rest) => if reply is Failed {
            let message = "failed to start background setup worker "@ + executable + ": "@
                + reply->Failed_0;
            match status_flow(setup.status_path, "failed\n"@ + message + "\n"@, rest) {
                (Err(halt), rest) => (Err(halt), rest),
                (Ok(_), rest) => host::failed(message, rest),
            }
        } else {
            (Ok(reply->Started_0), rest)
        },
    }
}

/// Starts the worker's process.
fn spawn_worker(worker_executable: &str, setup: &BackgroundSetup, session: &mut Session<'_>) -> (
result: Result<u32, Halt>)
    ensures
        (host::seen(result), final(session)@) == spawn_flow(
            worker_executable@,
            setup.deep_view(),
            old(session)@,
        ),
{
    match session.ask(
        Request::StartWorker {
            executable: worker_executable.to_owned(),
            arguments: arguments_for_worker(setup),
        },
    )? {
        Reply::Started(process) => Ok(*process),
        Reply::Failed(error) => {
            let message: String = "failed to start background setup worker ".to_owned().concat(
                worker_executable,
            ).concat(": ").concat(error.as_str());
            write_background_setup_status(
                setup.status_path.as_str(),
                "failed\n".to_owned().concat(message.as_str()).concat("\n"),
                session,
            )?;
            Err(Halt::Failed(message))
        },
        _ => unreached(),
    }
}

/// Starts the worker, and gives the number of its process.
pub fn start_background_setup(
    worker_executable: &str,
    setup: &BackgroundSetup,
    session: &mut Session<'_>,
) -> (result: Result<u32, Halt>)
    ensures
        (host::seen(result), final(session)@) == start_flow(
            worker_executable@,
            setup.deep_view(),
            old(session)@,
        ),
{
    let directory: &str = match path::parent(setup.log_path.as_str()) {
        Some(directory) => directory,
        None => {
            return Err(
                Halt::Failed("background setup log path has no parent directory".to_owned()),
            );
        },
    };
    perform(
        Request::CreateDirectory { path: directory.to_owned() },
        "failed to create background setup directory ".to_owned().concat(directory),
        session,
    )?;
    write_background_setup_status(
        setup.status_path.as_str(),
        "pending\n".to_owned(),
        session,
    )?;
    perform(
        Request::CreateLog { path: setup.log_path.clone() },
        "failed to create background setup log ".to_owned().concat(setup.log_path.as_str()),
        session,
    )?;
    perform(
        Request::ShareLog { path: setup.log_path.clone() },
        "failed to open background setup log ".to_owned().concat(
            setup.log_path.as_str(),
        ).concat(" for stdout"),
        session,
    )?;
    spawn_worker(worker_executable, setup, session)
}

/// The work of the worker, and the status that it leaves.
pub open spec fn worker_flow(
    root: Seq<char>,
    worktree: Seq<char>,
    status_path: Seq<char>,
    commands: Seq<Seq<char>>,
    replies: Seq<ReplyView>,
) -> Flow<usize> {
    match status_flow(status_path, "running\n"@, replies) {
        (Err(halt), rest) => (Err(halt), rest),
        (Ok(_), rest) => match setup_flow(root, worktree, commands, rest) {
            (Err(HaltView::Failed(error)), rest) => match status_flow(
                status_path,
                "failed\n"@ + error + "\n"@,
                rest,
            ) {
                (Err(halt), rest) => (Err(halt), rest),
                (Ok(_), rest) => host::failed(error, rest),
            },
            (Err(halt), rest) => (Err(halt), rest),
            (Ok(count), rest) => match status_flow(status_path, "succeeded\n"@, rest) {
                (Err(halt), rest) => (Err(halt), rest),
                (Ok(_), rest) => (Ok(count), rest),
            },
        },
    }
}

/// Does the work of the worker: runs the commands and keeps the status.
pub fn run_background_setup_worker(
    repository_root: &str,
    worktree_path: &str,
    status_path: &str,
    setup_commands: &[String],
    session: &mut Session<'_>,
) -> (result: Result<usize, Halt>)
    ensures
        (host::seen(result), final(session)@) == worker_flow(
            repository_root@,
            worktree_path@,
            status_path@,
            setup_commands.deep_view(),
            old(session)@,
        ),
{
    write_background_setup_status(status_path, "running\n".to_owned(), session)?;
    match run_setup_commands(repository_root, worktree_path, setup_commands, session) {
        Ok(commands_run) => {
            write_background_setup_status(status_path, "succeeded\n".to_owned(), session)?;
            Ok(commands_run)
        },
        Err(Halt::Failed(error)) => {
            write_background_setup_status(
                status_path,
                "failed\n".to_owned().concat(error.as_str()).concat("\n"),
                session,
            )?;
            Err(Halt::Failed(error))
        },
        Err(halt) => Err(halt),
    }
}

/// The removal of one of the worker's files, which may be gone already.
pub open spec fn remove_artifact_flow(path: Seq<char>, replies: Seq<ReplyView>) -> Flow<()> {
    do_flow(
        RequestView::Remove { path },
        "failed to remove background setup file "@ + path,
        replies,
    )
}

/// The removal of the worker's log and status file.
pub open spec fn remove_artifacts_flow(
    root: Seq<char>,
    name: Seq<char>,
    replies: Seq<ReplyView>,
) -> Flow<()> {
    match git::git_path_flow(root, BACKGROUND_SETUP_DIRECTORY@, replies) {
        (Err(halt), rest) => (Err(halt), rest),
        (Ok(directory), rest) => match remove_artifact_flow(
            artifact_path(directory, name, "log"@),
            rest,
        ) {
            (Err(halt), rest) => (Err(halt), rest),
            (Ok(_), rest) => remove_artifact_flow(
                artifact_path(directory, name, "status"@),
                rest,
            ),
        },
    }
}

/// Removes one of the worker's files.
fn remove_artifact(path: String, session: &mut Session<'_>) -> (result: Result<(), Halt>)
    ensures
        (host::seen(result), final(session)@) == remove_artifact_flow(path@, old(session)@),
{
    let complaint: String = "failed to remove background setup file ".to_owned().concat(
        path.as_str(),
    );
    perform(Request::Remove { path }, complaint, session)
}

/// Removes the log and the status file of the worktree's worker.
pub fn remove_background_setup_artifacts(
    main_worktree_root: &str,
    worktree_name: &str,
    session: &mut Session<'_>,
) -> (result: Result<(), Halt>)
    ensures
        (host::seen(result), final(session)@) == remove_artifacts_flow(
            main_worktree_root@,
            worktree_name@,
            old(session)@,
        ),
{
    let directory: String = git::git_path(
        main_worktree_root,
        BACKGROUND_SETUP_DIRECTORY,
        session,
    )?;
    remove_artifact(artifact(directory.as_str(), worktree_name, "log"), session)?;
    remove_artifact(artifact(directory.as_str(), worktree_name, "status"), session)
}

} // verus!
