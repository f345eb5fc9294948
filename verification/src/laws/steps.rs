//! What each step of a creation asks for, word for word, and what it makes of each answer.

use vstd::prelude::*;
use crate::create;
use crate::create::SiteView;
use crate::git;
use crate::host::{HaltView, ReplyView, RequestView};
use crate::laws::creation;
use crate::laws::questions as q;
use crate::model::{BackgroundView, BaseView, OutcomeView};
use crate::name;
use crate::path;
use crate::setup;
use crate::text;

verus! {

broadcast use q::lemma_after;

/// The full name of a base's reference, letter for letter.
pub open spec fn full_reference(base: BaseView) -> Seq<char> {
    match base {
        BaseView::OriginMain => "refs/remotes/origin/main"@,
        BaseView::LocalBranch(branch) => "refs/heads/"@ + branch,
    }
}

/// The shell's part in a setup command.
pub open spec fn in_shell(
    root: Seq<char>,
    worktree: Seq<char>,
    command: Seq<char>,
) -> RequestView {
    RequestView::Shell {
        directory: worktree,
        command,
        variable: "WORKTREE_MANAGER_REPO_ROOT"@,
        value: root,
    }
}

/// Law: a setup command runs in the worktree, with the repository in its environment, and has to
/// end with zero.
pub proof fn law_a_setup_command(
    root: Seq<char>,
    worktree: Seq<char>,
    command: Seq<char>,
    replies: Seq<ReplyView>,
)
    ensures
        ({
            let flow = setup::command_flow(root, worktree, command, replies);
            let request = in_shell(root, worktree, command);
            &&& q::unanswered(request, replies) ==> q::waits(flow, request, replies)
            &&& q::well(replies) ==> q::gives(flow, (), q::after(replies))
            &&& q::badly(replies) ==> q::fails(
                flow,
                "setup command '"@ + command + "' failed with status "@
                    + replies[0]->Ended_0.status,
                q::after(replies),
            )
            &&& q::unable(replies) ==> q::fails(
                flow,
                "failed to start setup command '"@ + command + "': "@ + replies[0]->Failed_0,
                q::after(replies),
            )
        }),
{
}

/// Law: setup commands run one after the other, each once those before it ended with zero, and how
/// many there are is told when all of them did.
pub proof fn law_all_setup_commands(
    root: Seq<char>,
    worktree: Seq<char>,
    commands: Seq<Seq<char>>,
    replies: Seq<ReplyView>,
    at: int,
)
    requires
        0 <= at <= commands.len(),
        at <= replies.len(),
        forall|i: int| 0 <= i < at ==> creation::success(#[trigger] replies[i]),
    ensures
        ({
            let flow = setup::setup_flow(root, worktree, commands, replies);
            let rest = replies.skip(at);
            if at == commands.len() {
                q::gives(flow, commands.len() as usize, rest)
            } else {
                let request = in_shell(root, worktree, commands[at]);
                &&& q::unanswered(request, rest) ==> q::waits(flow, request, rest)
                &&& q::badly(rest) ==> q::fails(
                    flow,
                    "setup command '"@ + commands[at] + "' failed with status "@
                        + rest[0]->Ended_0.status,
                    q::after(rest),
                )
                &&& q::unable(rest) ==> q::fails(
                    flow,
                    "failed to start setup command '"@ + commands[at] + "': "@
                        + rest[0]->Failed_0,
                    q::after(rest),
                )
            }
        }),
{
    creation::law_commands_run_in_order(root, worktree, commands, replies, at);
    let left = commands.skip(at);
    let rest = replies.skip(at);
    if at < commands.len() {
        assert(left[0] == commands[at]);
        law_a_setup_command(root, worktree, commands[at], rest);
    } else {
        assert(left.len() == 0);
        assert(setup::commands_flow(root, worktree, left, rest) == (
            Ok::<(), HaltView>(()),
            rest,
        ));
    }
}

/// Law: nothing is left for a worker without commands for it. Otherwise its files stand in the
/// directory `worktree-manager/setup` among Git's own, called after the worktree.
pub proof fn law_what_is_left_for_the_worker(
    root: Seq<char>,
    worktree: Seq<char>,
    name: Seq<char>,
    commands: Seq<Seq<char>>,
    replies: Seq<ReplyView>,
)
    ensures
        ({
            let flow = setup::background_flow(root, worktree, name, commands, replies);
            let asked = git::git_path_flow(root, "worktree-manager/setup"@, replies);
            &&& commands.len() == 0 ==> q::gives(flow, None, replies)
            &&& commands.len() > 0 ==> {
                &&& asked.0 matches Err(halt) ==> flow.0 == Err::<
                    Option<BackgroundView>,
                    HaltView,
                >(halt) && flow.1 == asked.1
                &&& asked.0 matches Ok(directory) ==> q::gives(
                    flow,
                    Some(
                        BackgroundView {
                            repository_root: root,
                            worktree_path: worktree,
                            commands,
                            log_path: path::join_of(directory, name + ".log"@),
                            status_path: path::join_of(directory, name + ".status"@),
                        },
                    ),
                    asked.1,
                )
            }
        }),
{
    reveal_strlit(".");
    reveal_strlit("log");
    reveal_strlit(".log");
    reveal_strlit("status");
    reveal_strlit(".status");
    assert(name + "."@ + "log"@ =~= name + ".log"@);
    assert(name + "."@ + "status"@ =~= name + ".status"@);
}

/// Law: a file of the worker is called after the worktree, with a dot before its extension.
pub proof fn law_the_files_of_the_worker(
    directory: Seq<char>,
    name: Seq<char>,
    extension: Seq<char>,
)
    ensures
        setup::artifact_path(directory, name, extension) == path::join_of(
            directory,
            name + seq!['.'] + extension,
        ),
{
    reveal_strlit(".");
    assert("."@ =~= seq!['.']);
}

/// Law: the worker's status is written to its file, and that it could not be is a failure.
pub proof fn law_a_status_is_written(
    path: Seq<char>,
    contents: Seq<char>,
    replies: Seq<ReplyView>,
)
    ensures
        ({
            let flow = setup::status_flow(path, contents, replies);
            let request = RequestView::Write { path, contents };
            &&& q::unanswered(request, replies) ==> q::waits(flow, request, replies)
            &&& replies.len() > 0 && replies[0] is Done ==> q::gives(
                flow,
                (),
                q::after(replies),
            )
            &&& q::unable(replies) ==> q::fails(
                flow,
                "failed to update background setup status "@ + path + ": "@
                    + replies[0]->Failed_0,
                q::after(replies),
            )
        }),
{
}

/// Law: the worker is started with its subcommand, the repository, the worktree and the status
/// file, and then every one of its commands, in their order.
pub proof fn law_the_arguments_of_the_worker(setup: BackgroundView)
    ensures
        ({
            let arguments = setup::worker_arguments(setup);
            &&& arguments.len() == 7 + setup.commands.len()
            &&& arguments[0] == "__run-background-setup"@
            &&& arguments[1] == "--repository-root"@
            &&& arguments[2] == setup.repository_root
            &&& arguments[3] == "--worktree-path"@
            &&& arguments[4] == setup.worktree_path
            &&& arguments[5] == "--status-path"@
            &&& arguments[6] == setup.status_path
            &&& forall|i: int|
                0 <= i < setup.commands.len() ==> arguments[7 + i] == "--setup-command="@ + (
                #[trigger] setup.commands[i])
        }),
{
}

/// The start of a worker's process, with every one of its commands among the arguments.
pub open spec fn starts_worker(
    request: RequestView,
    executable: Seq<char>,
    setup: BackgroundView,
) -> bool {
    &&& request matches RequestView::StartWorker { executable: program, arguments }
    &&& program == executable
    &&& arguments.len() == 7 + setup.commands.len()
    &&& arguments.take(7) == seq![
        "__run-background-setup"@,
        "--repository-root"@,
        setup.repository_root,
        "--worktree-path"@,
        setup.worktree_path,
        "--status-path"@,
        setup.status_path,
    ]
    &&& forall|i: int|
        0 <= i < setup.commands.len() ==> arguments[7 + i] == "--setup-command="@ + (
        #[trigger] setup.commands[i])
}

/// Law: whatever process the start of a worker asks for has all of the worker's arguments.
pub proof fn law_every_command_reaches_the_worker(
    executable: Seq<char>,
    setup: BackgroundView,
    replies: Seq<ReplyView>,
    request: RequestView,
)
    requires
        setup::start_flow(executable, setup, replies).0 == Err::<u32, HaltView>(
            HaltView::Pending(request),
        ),
        request is StartWorker,
    ensures
        starts_worker(request, executable, setup),
{
    law_the_arguments_of_the_worker(setup);
    assert(setup::worker_arguments(setup).take(7) =~= seq![
        "__run-background-setup"@,
        "--repository-root"@,
        setup.repository_root,
        "--worktree-path"@,
        setup.worktree_path,
        "--status-path"@,
        setup.status_path,
    ]);
}

/// Law: a worker's start makes the directory of its log, writes `pending` to its status, creates
/// its log, opens it once more and starts the process; each of these waits for the one before it,
/// and one that fails ends the start with a message. Where the process does not start, the status
/// tells that too.
pub proof fn law_the_start_of_a_worker(
    executable: Seq<char>,
    setup: BackgroundView,
    replies: Seq<ReplyView>,
    directory: Seq<char>,
)
    requires
        path::parent_of(setup.log_path) == Some(directory),
    ensures
        ({
            let flow = setup::start_flow(executable, setup, replies);
            let r1 = q::after(replies);
            let r2 = q::after(r1);
            let r3 = q::after(r2);
            let r4 = q::after(r3);
            let r5 = q::after(r4);
            let make = RequestView::CreateDirectory { path: directory };
            let pend = RequestView::Write { path: setup.status_path, contents: "pending\n"@ };
            let log = RequestView::CreateLog { path: setup.log_path };
            let share = RequestView::ShareLog { path: setup.log_path };
            &&& q::unanswered(make, replies) ==> q::waits(flow, make, replies)
            &&& q::unable(replies) ==> q::fails(
                flow,
                "failed to create background setup directory "@ + directory + ": "@
                    + replies[0]->Failed_0,
                r1,
            )
            &&& replies.len() > 0 && replies[0] is Done ==> {
                &&& q::unanswered(pend, r1) ==> q::waits(flow, pend, r1)
                &&& q::unable(r1) ==> q::fails(
                    flow,
                    "failed to update background setup status "@ + setup.status_path + ": "@
                        + r1[0]->Failed_0,
                    r2,
                )
                &&& r1.len() > 0 && r1[0] is Done ==> {
                    &&& q::unanswered(log, r2) ==> q::waits(flow, log, r2)
                    &&& q::unable(r2) ==> q::fails(
                        flow,
                        "failed to create background setup log "@ + setup.log_path + ": "@
                            + r2[0]->Failed_0,
                        r3,
                    )
                    &&& r2.len() > 0 && r2[0] is Done ==> {
                        &&& q::unanswered(share, r3) ==> q::waits(flow, share, r3)
                        &&& q::unable(r3) ==> q::fails(
                            flow,
                            "failed to open background setup log "@ + setup.log_path
                                + " for stdout"@ + ": "@ + r3[0]->Failed_0,
                            r4,
                        )
                        &&& r3.len() > 0 && r3[0] is Done ==> {
                            &&& r4.len() == 0 || !(r4[0] is Started || r4[0] is Failed) ==> {
                                &&& flow.0 matches Err(HaltView::Pending(request))
                                    && starts_worker(request, executable, setup)
                                &&& flow.1 == r4
                            }
                            &&& r4.len() > 0 && r4[0] is Started ==> q::gives(
                                flow,
                                r4[0]->Started_0,
                                r5,
                            )
                            &&& q::unable(r4) ==> {
                                let message = "failed to start background setup worker "@
                                    + executable + ": "@ + r4[0]->Failed_0;
                                let tell = RequestView::Write {
                                    path: setup.status_path,
                                    contents: "failed\n"@ + message + "\n"@,
                                };
                                &&& q::unanswered(tell, r5) ==> q::waits(flow, tell, r5)
                                &&& r5.len() > 0 && r5[0] is Done ==> q::fails(
                                    flow,
                                    message,
                                    q::after(r5),
                                )
                            }
                        }
                    }
                }
            }
        }),
{
    law_the_arguments_of_the_worker(setup);
    assert(setup::worker_arguments(setup).take(7) =~= seq![
        "__run-background-setup"@,
        "--repository-root"@,
        setup.repository_root,
        "--worktree-path"@,
        setup.worktree_path,
        "--status-path"@,
        setup.status_path,
    ]);
}

/// Law: a log without a directory is a failure of the start.
pub proof fn law_a_worker_needs_a_directory(
    executable: Seq<char>,
    setup: BackgroundView,
    replies: Seq<ReplyView>,
)
    requires
        path::parent_of(setup.log_path) is None,
    ensures
        q::fails(
            setup::start_flow(executable, setup, replies),
            "background setup log path has no parent directory"@,
            replies,
        ),
{
}

/// Law: the worker writes `running`, runs its commands, and writes `succeeded` and tells how many
/// there were, or `failed` and the error, with which it then fails.
pub proof fn law_the_work_of_the_worker(
    root: Seq<char>,
    worktree: Seq<char>,
    status_path: Seq<char>,
    commands: Seq<Seq<char>>,
    replies: Seq<ReplyView>,
)
    ensures
        ({
            let flow = setup::worker_flow(root, worktree, status_path, commands, replies);
            let run = RequestView::Write { path: status_path, contents: "running\n"@ };
            let (work, rest) = setup::setup_flow(root, worktree, commands, q::after(replies));
            &&& q::unanswered(run, replies) ==> q::waits(flow, run, replies)
            &&& q::unable(replies) ==> q::fails(
                flow,
                "failed to update background setup status "@ + status_path + ": "@
                    + replies[0]->Failed_0,
                q::after(replies),
            )
            &&& replies.len() > 0 && replies[0] is Done ==> {
                &&& work matches Err(HaltView::Pending(request)) ==> q::waits(
                    flow,
                    request,
                    rest,
                )
                &&& work matches Ok(count) ==> {
                    let tell = RequestView::Write { path: status_path, contents: "succeeded\n"@ };
                    &&& q::unanswered(tell, rest) ==> q::waits(flow, tell, rest)
                    &&& rest.len() > 0 && rest[0] is Done ==> q::gives(
                        flow,
                        count,
                        q::after(rest),
                    )
                    &&& q::unable(rest) ==> q::fails(
                        flow,
                        "failed to update background setup status "@ + status_path + ": "@
                            + rest[0]->Failed_0,
                        q::after(rest),
                    )
                }
                &&& work matches Err(HaltView::Failed(error)) ==> {
                    let tell = RequestView::Write {
                        path: status_path,
                        contents: "failed\n"@ + error + "\n"@,
                    };
                    &&& q::unanswered(tell, rest) ==> q::waits(flow, tell, rest)
                    &&& rest.len() > 0 && rest[0] is Done ==> q::fails(
                        flow,
                        error,
                        q::after(rest),
                    )
                    &&& q::unable(rest) ==> q::fails(
                        flow,
                        "failed to update background setup status "@ + status_path + ": "@
                            + rest[0]->Failed_0,
                        q::after(rest),
                    )
                }
            }
        }),
{
}

/// Law: a command runs through `sh -c`, or through `cmd /C` on Windows.
pub proof fn law_the_shell_of_a_platform(command: Seq<char>)
    ensures
        setup::shell_words(false, command) == ("sh"@, seq!["-c"@, command]),
        setup::shell_words(true, command) == ("cmd"@, seq!["/C"@, command]),
{
}

/// Law: the head is asked for; where it has no commit, whether there is a commit at all.
pub proof fn law_the_head_is_asked_for(root: Seq<char>, replies: Seq<ReplyView>)
    ensures
        ({
            let flow = create::head_flow(root, replies);
            let head = q::asked(root, seq!["rev-parse"@, "--verify"@, "HEAD"@]);
            let any = q::asked(root, seq!["rev-list"@, "--max-count=1"@, "--all"@]);
            let none = "repository has no commits yet; create an initial commit first"@;
            let rest = q::after(replies);
            &&& q::unanswered(head, replies) ==> q::waits(flow, head, replies)
            &&& q::unable(replies) ==> q::fails(flow, none, rest)
            &&& q::well(replies) ==> q::gives(flow, (), rest)
            &&& q::badly(replies) ==> {
                &&& q::unanswered(any, rest) ==> q::waits(flow, any, rest)
                &&& q::well(rest) && rest[0]->Ended_0.stdout.len() == 0 ==> q::fails(
                    flow,
                    none,
                    q::after(rest),
                )
                &&& q::well(rest) && rest[0]->Ended_0.stdout.len() > 0 ==> q::gives(
                    flow,
                    (),
                    q::after(rest),
                )
                &&& q::badly(rest) || q::unable(rest) ==> q::gives(flow, (), q::after(rest))
            }
        }),
{
}

/// Law: the base is asked for by its reference, letter for letter, and has to have a commit.
pub proof fn law_the_base_is_asked_for(root: Seq<char>, base: BaseView, replies: Seq<ReplyView>)
    ensures
        ({
            let flow = create::base_flow(root, base, replies);
            let arguments = seq![
                "rev-parse"@,
                "--verify"@,
                "--quiet"@,
                full_reference(base) + "^{commit}"@,
            ];
            let shown = match base {
                BaseView::OriginMain => "origin/main"@,
                BaseView::LocalBranch(branch) => branch,
            };
            &&& q::unanswered(q::asked(root, arguments), replies) ==> q::waits(
                flow,
                q::asked(root, arguments),
                replies,
            )
            &&& q::well(replies) ==> q::gives(flow, (), q::after(replies))
            &&& q::badly(replies) ==> q::fails(
                flow,
                "base branch '"@ + shown + "' does not exist or has no commits"@,
                q::after(replies),
            )
            &&& q::unable(replies) ==> q::fails(
                flow,
                q::no_answer(arguments, replies),
                q::after(replies),
            )
        }),
{
}

/// Law: the branch of the name is asked for, and must not be there: Git ends with one then.
pub proof fn law_the_branch_is_asked_for(root: Seq<char>, name: Seq<char>, replies: Seq<ReplyView>)
    ensures
        ({
            let flow = create::branch_flow(root, name, replies);
            let request = q::asked(
                root,
                seq!["show-ref"@, "--verify"@, "--quiet"@, "refs/heads/"@ + name],
            );
            &&& q::unanswered(request, replies) ==> q::waits(flow, request, replies)
            &&& q::well(replies) ==> q::fails(
                flow,
                "branch '"@ + name + "' already exists"@,
                q::after(replies),
            )
            &&& q::badly(replies) && replies[0]->Ended_0.code == Some(1i32) ==> q::gives(
                flow,
                (),
                q::after(replies),
            )
            &&& q::badly(replies) && replies[0]->Ended_0.code != Some(1i32) ==> q::fails(
                flow,
                "failed to check branch '"@ + name + "': "@ + q::complained(replies),
                q::after(replies),
            )
            &&& q::unable(replies) ==> q::fails(
                flow,
                "failed to check branch '"@ + name + "': "@ + replies[0]->Failed_0,
                q::after(replies),
            )
        }),
{
}

/// Law: something at the path of the worktree is a failure.
pub proof fn law_the_path_is_asked_for(path: Seq<char>, replies: Seq<ReplyView>)
    ensures
        ({
            let flow = create::target_flow(path, replies);
            let request = RequestView::Exists { path };
            &&& q::unanswered(request, replies) ==> q::waits(flow, request, replies)
            &&& replies.len() > 0 && replies[0] == ReplyView::Answer(false) ==> q::gives(
                flow,
                (),
                q::after(replies),
            )
            &&& replies.len() > 0 && replies[0] == ReplyView::Answer(true) ==> q::fails(
                flow,
                "target path already exists: "@ + path,
                q::after(replies),
            )
        }),
{
}

/// Law: the configuration is read from `agent-worktree.config.json` at the root; there is none
/// where the file is not there.
pub proof fn law_the_configuration_is_read(root: Seq<char>, replies: Seq<ReplyView>)
    ensures
        ({
            let flow = create::config_flow(root, replies);
            let file = path::join_of(root, "agent-worktree.config.json"@);
            let read = RequestView::Read { path: file };
            let rest = q::after(replies);
            &&& q::unanswered(read, replies) ==> q::waits(flow, read, replies)
            &&& replies.len() > 0 && replies[0] is Absent ==> q::gives(flow, None, rest)
            &&& q::unable(replies) ==> q::fails(
                flow,
                "failed to read "@ + file + ": "@ + replies[0]->Failed_0,
                rest,
            )
            &&& replies.len() > 0 && replies[0] is Text ==> {
                let parse = RequestView::ParseConfig { contents: replies[0]->Text_0 };
                &&& q::unanswered(parse, rest) ==> q::waits(flow, parse, rest)
                &&& q::unable(rest) ==> q::fails(
                    flow,
                    "failed to parse "@ + file + ": "@ + rest[0]->Failed_0,
                    q::after(rest),
                )
                &&& rest.len() > 0 && rest[0] is Config ==> q::gives(
                    flow,
                    Some(rest[0]->Config_0),
                    q::after(rest),
                )
            }
        }),
{
}

/// Law: an exclude file excludes worktrees exactly where one of its lines is `/.worktrees/`, with
/// or without white space around it; otherwise that line is put at its end, on a line of its own.
pub proof fn law_what_excludes_worktrees(contents: Seq<char>)
    ensures
        create::excludes(contents) <==> exists|i: int|
            0 <= i < text::lines_of(contents).len() && text::trimmed(
                #[trigger] text::lines_of(contents)[i],
            ) == "/.worktrees/"@,
        create::excludes(contents) ==> create::excluding(contents) == contents,
        !create::excludes(contents) && (contents.len() == 0 || contents[contents.len() - 1] == '\n')
            ==> create::excluding(contents) == contents + "/.worktrees/\n"@,
        !create::excludes(contents) && contents.len() > 0 && contents[contents.len() - 1] != '\n'
            ==> create::excluding(contents) == contents + "\n/.worktrees/\n"@,
{
    reveal_strlit("");
    reveal_strlit("\n");
    reveal_strlit("/.worktrees/");
    reveal_strlit("/.worktrees/\n");
    reveal_strlit("\n/.worktrees/\n");
    if contents.len() > 0 {
        assert(contents.last() == contents[contents.len() - 1]);
    }
    assert(contents + ""@ + "/.worktrees/"@ + "\n"@ =~= contents + "/.worktrees/\n"@);
    assert(contents + "\n"@ + "/.worktrees/"@ + "\n"@ =~= contents + "\n/.worktrees/\n"@);
}

/// Law: Git's file `info/exclude` is read, and written only where it does not exclude worktrees
/// yet; a file that is not there is empty.
pub proof fn law_worktrees_are_excluded(root: Seq<char>, replies: Seq<ReplyView>)
    ensures
        ({
            let flow = create::ignore_flow(root, replies);
            let (found, rest) = git::git_path_flow(root, "info/exclude"@, replies);
            &&& found matches Err(halt) ==> flow.0 == Err::<(), HaltView>(halt) && flow.1 == rest
            &&& found matches Ok(file) ==> {
                let read = RequestView::Read { path: file };
                &&& q::unanswered(read, rest) ==> q::waits(flow, read, rest)
                &&& q::unable(rest) ==> q::fails(
                    flow,
                    "failed to read Git exclude file "@ + file + ": "@ + rest[0]->Failed_0,
                    q::after(rest),
                )
                &&& rest.len() > 0 && (rest[0] is Text || rest[0] is Absent) ==> {
                    let contents = if rest[0] is Text {
                        rest[0]->Text_0
                    } else {
                        Seq::empty()
                    };
                    let write = RequestView::Write {
                        path: file,
                        contents: create::excluding(contents),
                    };
                    let last = q::after(rest);
                    &&& create::excludes(contents) ==> q::gives(flow, (), last)
                    &&& !create::excludes(contents) ==> {
                        &&& q::unanswered(write, last) ==> q::waits(flow, write, last)
                        &&& last.len() > 0 && last[0] is Done ==> q::gives(
                            flow,
                            (),
                            q::after(last),
                        )
                        &&& q::unable(last) ==> q::fails(
                            flow,
                            "failed to update Git exclude file "@ + file + ": "@
                                + last[0]->Failed_0,
                            q::after(last),
                        )
                    }
                }
            }
        }),
{
}

/// Git's addition of a worktree, with a branch of its name, from a base.
pub open spec fn adds(
    root: Seq<char>,
    name: Seq<char>,
    path: Seq<char>,
    base: BaseView,
) -> RequestView {
    RequestView::GitAttached {
        directory: root,
        arguments: seq!["worktree"@, "add"@, "-b"@, name, path, full_reference(base)],
    }
}

/// Law: Git adds the worktree, and has to end with zero.
pub proof fn law_the_worktree_is_added(
    root: Seq<char>,
    name: Seq<char>,
    path: Seq<char>,
    base: BaseView,
    replies: Seq<ReplyView>,
)
    ensures
        ({
            let flow = create::add_flow(root, name, path, base, replies);
            let request = adds(root, name, path, base);
            &&& q::unanswered(request, replies) ==> q::waits(flow, request, replies)
            &&& q::well(replies) ==> q::gives(flow, (), q::after(replies))
            &&& q::badly(replies) ==> q::fails(
                flow,
                "git worktree add failed with status "@ + replies[0]->Ended_0.status,
                q::after(replies),
            )
            &&& q::unable(replies) ==> q::fails(
                flow,
                "failed to start git worktree add: "@ + replies[0]->Failed_0,
                q::after(replies),
            )
        }),
{
}

/// Law: a name that is not accepted fails the checks before anything is asked, with what is wrong
/// with it.
pub proof fn law_the_name_is_checked_first(
    directory: Seq<char>,
    name: Seq<char>,
    base: BaseView,
    replies: Seq<ReplyView>,
    wrong: Seq<char>,
)
    requires
        name::name_error(name) == Some(wrong),
    ensures
        q::fails(create::check_flow(directory, name, base, replies), wrong, replies),
        q::fails(create::create_flow(directory, name, base, replies), wrong, replies),
{
}

/// Law: the checks are made in their order, each in the work tree that the first one finds, and
/// what each comes to, unless it passes, is what all come to.
pub proof fn law_the_order_of_the_checks(
    directory: Seq<char>,
    name: Seq<char>,
    base: BaseView,
    replies: Seq<ReplyView>,
)
    requires
        name::name_error(name) is None,
    ensures
        ({
            let flow = create::check_flow(directory, name, base, replies);
            let (found, r1) = git::discover_flow(directory, replies);
            let root = found->Ok_0;
            let (head, r2) = create::head_flow(root, r1);
            let (start, r3) = create::base_flow(root, base, r2);
            let (branch, r4) = create::branch_flow(root, name, r3);
            let (target, r5) = create::target_flow(
                path::join_of(path::join_of(root, ".worktrees"@), name),
                r4,
            );
            let (config, r6) = create::config_flow(root, r5);
            let (primary, r7) = git::primary_flow(root, r6);
            let halted = |halt: HaltView, rest: Seq<ReplyView>|
                flow.0 == Err::<SiteView, HaltView>(halt) && flow.1 == rest;
            &&& found matches Err(halt) ==> halted(halt, r1)
            &&& found is Ok ==> {
                &&& head matches Err(halt) ==> halted(halt, r2)
                &&& head is Ok ==> {
                    &&& start matches Err(halt) ==> halted(halt, r3)
                    &&& start is Ok ==> {
                        &&& branch matches Err(halt) ==> halted(halt, r4)
                        &&& branch is Ok ==> {
                            &&& target matches Err(halt) ==> halted(halt, r5)
                            &&& target is Ok ==> {
                                &&& config matches Err(halt) ==> halted(halt, r6)
                                &&& config is Ok ==> {
                                    &&& primary matches Err(halt) ==> halted(halt, r7)
                                    &&& primary is Ok ==> q::gives(
                                        flow,
                                        SiteView {
                                            root,
                                            main_root: primary->Ok_0,
                                            config: config->Ok_0,
                                        },
                                        r7,
                                    )
                                }
                            }
                        }
                    }
                }
            }
        }),
{
}

/// Law: once the checks passed, worktrees are excluded, then the worktree is added at its path,
/// then it is set up; each follows the success of the one before it.
pub proof fn law_the_order_of_a_creation(
    directory: Seq<char>,
    name: Seq<char>,
    base: BaseView,
    replies: Seq<ReplyView>,
    site: SiteView,
)
    requires
        create::check_flow(directory, name, base, replies).0 == Ok::<SiteView, HaltView>(site),
    ensures
        ({
            let flow = create::create_flow(directory, name, base, replies);
            let rest = create::check_flow(directory, name, base, replies).1;
            let path = path::join_of(path::join_of(site.root, ".worktrees"@), name);
            let (ignored, r1) = create::ignore_flow(site.root, rest);
            let (added, r2) = create::add_flow(site.root, name, path, base, r1);
            &&& ignored matches Err(halt) ==> flow.0 == Err::<OutcomeView, HaltView>(halt)
                && flow.1 == r1
            &&& ignored is Ok ==> {
                &&& added matches Err(halt) ==> flow.0 == Err::<OutcomeView, HaltView>(halt)
                    && flow.1 == r2
                &&& added is Ok ==> flow == create::furnish_flow(site, name, r2)
            }
        }),
{
}

/// Law: a worktree without a configuration needs no setup. With one, its setup commands run in it,
/// and then what is left for the worker is made out, which is told the primary checkout.
pub proof fn law_how_a_worktree_is_set_up(
    site: SiteView,
    name: Seq<char>,
    replies: Seq<ReplyView>,
)
    ensures
        ({
            let flow = create::furnish_flow(site, name, replies);
            let path = path::join_of(path::join_of(site.root, ".worktrees"@), name);
            &&& site.config is None ==> q::gives(
                flow,
                OutcomeView {
                    name,
                    path,
                    config_missing: true,
                    setup_commands_run: 0,
                    background_setup: None,
                },
                replies,
            )
            &&& site.config matches Some(config) ==> {
                let (ran, r1) = setup::setup_flow(
                    site.main_root,
                    path,
                    config.setup_commands,
                    replies,
                );
                let (left, r2) = setup::background_flow(
                    site.root,
                    path,
                    name,
                    config.background_setup_commands,
                    r1,
                );
                &&& ran matches Err(halt) ==> flow.0 == Err::<OutcomeView, HaltView>(halt)
                    && flow.1 == r1
                &&& ran is Ok ==> {
                    &&& left matches Err(halt) ==> flow.0 == Err::<OutcomeView, HaltView>(halt)
                        && flow.1 == r2
                    &&& left matches Ok(background) ==> {
                        &&& flow.0 matches Ok(outcome)
                        &&& flow.1 == r2
                        &&& outcome.name == name
                        &&& outcome.path == path
                        &&& !outcome.config_missing
                        &&& outcome.setup_commands_run == config.setup_commands.len() as usize
                        &&& background is None <==> outcome.background_setup is None
                        &&& background matches Some(setup) ==> {
                            let told = outcome.background_setup->0;
                            &&& told.repository_root == site.main_root
                            &&& told.worktree_path == path
                            &&& told.commands == config.background_setup_commands
                            &&& told.log_path == setup.log_path
                            &&& told.status_path == setup.status_path
                        }
                    }
                }
            }
        }),
{
}

} // verus!
