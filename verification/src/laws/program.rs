//! What the program as a whole does, in which order, and what it tells.

use vstd::prelude::*;
use crate::clean;
use crate::cli;
use crate::cli::{InvocationView, SubcommandView};
use crate::create;
use crate::create::SiteView;
use crate::host::{HaltView, ReplyView, RequestView};
use crate::laws::creation;
use crate::laws::questions as q;
use crate::laws::steps;
use crate::model::{BackgroundView, BaseView, ConfigView, OutcomeView};
use crate::name;
use crate::path;
use crate::select;
use crate::setup;
use crate::text;

verus! {

broadcast use q::lemma_after;

/// Law: a name that is given counts, without the white space around it; a blank one, or none, has
/// one made up.
pub proof fn law_how_a_name_is_found(name: Option<Seq<char>>, replies: Seq<ReplyView>)
    ensures
        ({
            let flow = cli::name_flow(name, replies);
            let given = name is Some && text::trimmed(name->0).len() > 0;
            &&& given ==> q::gives(flow, text::trimmed(name->0), replies)
            &&& !given ==> {
                &&& q::unanswered(RequestView::RandomName, replies) ==> q::waits(
                    flow,
                    RequestView::RandomName,
                    replies,
                )
                &&& !q::unanswered(RequestView::RandomName, replies) ==> q::gives(
                    flow,
                    replies[0]->Text_0,
                    q::after(replies),
                )
            }
        }),
{
}

/// Law: without something for a worker none is started. Otherwise the program's own executable is
/// asked for, and started as the worker.
pub proof fn law_how_the_worker_is_launched(
    background: Option<BackgroundView>,
    replies: Seq<ReplyView>,
)
    ensures
        ({
            let flow = cli::launch_flow(background, replies);
            let rest = q::after(replies);
            &&& background is None ==> q::gives(flow, None, replies)
            &&& background matches Some(setup) ==> {
                &&& q::unanswered(RequestView::CurrentExecutable, replies) ==> q::waits(
                    flow,
                    RequestView::CurrentExecutable,
                    replies,
                )
                &&& q::unable(replies) ==> q::fails(
                    flow,
                    "failed to locate current executable: "@ + replies[0]->Failed_0,
                    rest,
                )
                &&& replies.len() > 0 && replies[0] is Text ==> {
                    let (started, end) = setup::start_flow(replies[0]->Text_0, setup, rest);
                    match started {
                        Ok(process) => q::gives(flow, Some(process), end),
                        Err(halt) => flow.0 == Err::<Option<u32>, HaltView>(halt) && flow.1 == end,
                    }
                }
            }
        }),
{
    reveal_strlit("failed to locate current executable");
    reveal_strlit(": ");
    reveal_strlit("failed to locate current executable: ");
    assert("failed to locate current executable"@ + ": "@
        =~= "failed to locate current executable: "@);
}

/// Law: the summary tells the name and the path, how many setup commands ran, if any, and of a
/// worker how many commands it has, its process, its status file and its log.
pub proof fn law_what_the_summary_tells(outcome: OutcomeView, process: Option<u32>)
    ensures
        ({
            let lines = cli::summary(outcome, process);
            let ran: int = if outcome.setup_commands_run > 0 {
                1
            } else {
                0
            };
            let started = outcome.background_setup is Some && process is Some;
            &&& lines.len() == 2 + ran + if started {
                3int
            } else {
                0
            }
            &&& lines[0] == "created worktree '"@ + outcome.name + "'"@
            &&& lines[1] == "path: "@ + outcome.path
            &&& outcome.setup_commands_run > 0 ==> lines[2] == "ran "@ + text::decimal(
                outcome.setup_commands_run as nat,
            ) + " setup command(s)"@
            &&& started ==> {
                let setup = outcome.background_setup->0;
                &&& lines[2 + ran] == "started "@ + text::decimal(setup.commands.len())
                    + " background setup command(s) (pid "@ + text::decimal(process->0 as nat)
                    + ")"@
                &&& lines[3 + ran] == "setup status: "@ + setup.status_path
                &&& lines[4 + ran] == "setup log: "@ + setup.log_path
            }
        }),
{
}

/// Law: lines are written one after the other, each once those before it are.
pub proof fn law_lines_are_told(lines: Seq<Seq<char>>, replies: Seq<ReplyView>, at: int)
    requires
        0 <= at <= lines.len(),
        at <= replies.len(),
        forall|i: int| 0 <= i < at ==> #[trigger] replies[i] is Done,
    ensures
        ({
            let flow = cli::lines_flow(lines, replies);
            let rest = replies.skip(at);
            if at == lines.len() {
                q::gives(flow, (), rest)
            } else {
                let request = RequestView::Print { line: lines[at] };
                q::unanswered(request, rest) ==> q::waits(flow, request, rest)
            }
        }),
    decreases at,
{
    assert(replies.skip(0) =~= replies);
    if at > 0 {
        let left = lines.drop_first();
        let rest = replies.drop_first();
        assert(replies[0] is Done);
        assert forall|i: int| 0 <= i < at - 1 implies #[trigger] rest[i] is Done by {
            assert(rest[i] == replies[i + 1]);
        }
        law_lines_are_told(left, rest, at - 1);
        assert(rest.skip(at - 1) =~= replies.skip(at));
    }
}

/// Law: that there is no configuration is warned of, on the standard error.
pub proof fn law_a_missing_configuration_is_warned_of(missing: bool, replies: Seq<ReplyView>)
    ensures
        ({
            let flow = cli::warn_flow(missing, replies);
            let line = "warning: agent-worktree.config.json not found; skipping setup commands"@;
            let request = RequestView::Report { line };
            &&& !missing ==> q::gives(flow, (), replies)
            &&& missing ==> {
                &&& q::unanswered(request, replies) ==> q::waits(flow, request, replies)
                &&& replies.len() > 0 && replies[0] is Done ==> q::gives(
                    flow,
                    (),
                    q::after(replies),
                )
            }
        }),
{
    reveal_strlit("warning: ");
    reveal_strlit("agent-worktree.config.json");
    reveal_strlit(" not found; skipping setup commands");
    reveal_strlit("warning: agent-worktree.config.json not found; skipping setup commands");
    assert("warning: "@ + "agent-worktree.config.json"@ + " not found; skipping setup commands"@
        =~= "warning: agent-worktree.config.json not found; skipping setup commands"@);
}

/// Law: the path is written, as it is, to the file that is asked for, if one is.
pub proof fn law_the_path_is_noted(
    file: Option<Seq<char>>,
    path: Seq<char>,
    replies: Seq<ReplyView>,
)
    ensures
        ({
            let flow = cli::note_path_flow(file, path, replies);
            &&& file is None ==> q::gives(flow, (), replies)
            &&& file matches Some(place) ==> {
                let request = RequestView::Write { path: place, contents: path };
                &&& q::unanswered(request, replies) ==> q::waits(flow, request, replies)
                &&& replies.len() > 0 && replies[0] is Done ==> q::gives(
                    flow,
                    (),
                    q::after(replies),
                )
                &&& q::unable(replies) ==> q::fails(
                    flow,
                    "failed to write created worktree path to "@ + place + ": "@
                        + replies[0]->Failed_0,
                    q::after(replies),
                )
            }
        }),
{
}

/// Law: after a creation the worker is launched, a missing configuration is warned of, the path is
/// noted and the summary is told, in this order.
pub proof fn law_the_order_after_a_creation(
    outcome: OutcomeView,
    file: Option<Seq<char>>,
    replies: Seq<ReplyView>,
)
    ensures
        ({
            let flow = cli::conclude_flow(outcome, file, replies);
            let (launched, r1) = cli::launch_flow(outcome.background_setup, replies);
            let (warned, r2) = cli::warn_flow(outcome.config_missing, r1);
            let (noted, r3) = cli::note_path_flow(file, outcome.path, r2);
            let halted = |halt: HaltView, rest: Seq<ReplyView>|
                flow.0 == Err::<(), HaltView>(halt) && flow.1 == rest;
            &&& launched matches Err(halt) ==> halted(halt, r1)
            &&& launched matches Ok(process) ==> {
                &&& warned matches Err(halt) ==> halted(halt, r2)
                &&& warned is Ok ==> {
                    &&& noted matches Err(halt) ==> halted(halt, r3)
                    &&& noted is Ok ==> flow == cli::lines_flow(cli::summary(outcome, process), r3)
                }
            }
        }),
{
}

/// Law: a new worktree has its base found, then its name, and is then created from that base under
/// that name; without a base nothing is created.
pub proof fn law_the_order_of_a_new_worktree(
    directory: Seq<char>,
    name: Option<Seq<char>>,
    file: Option<Seq<char>>,
    replies: Seq<ReplyView>,
)
    ensures
        ({
            let flow = cli::new_worktree_flow(directory, name, file, replies);
            let (base, r1) = select::prompt_base_flow(directory, replies);
            let (called, r2) = cli::name_flow(name, r1);
            let (created, r3) = create::create_flow(directory, called->Ok_0, base->Ok_0->0, r2);
            let halted = |halt: HaltView, rest: Seq<ReplyView>|
                flow.0 == Err::<(), HaltView>(halt) && flow.1 == rest;
            &&& base matches Err(halt) ==> halted(halt, r1)
            &&& base matches Ok(None) ==> q::gives(flow, (), r1)
            &&& base matches Ok(Some(_)) ==> {
                &&& called matches Err(halt) ==> halted(halt, r2)
                &&& called is Ok ==> {
                    &&& created matches Err(halt) ==> halted(halt, r3)
                    &&& created matches Ok(outcome) ==> flow == cli::conclude_flow(
                        outcome,
                        file,
                        r3,
                    )
                }
            }
        }),
{
}

/// Law: the program asks for the current directory, and then does what the command line asks for:
/// a clean-up with the names and the force that are given, the function for the shell, the work
/// of the worker, or a new worktree.
pub proof fn law_what_the_program_does(invocation: InvocationView, replies: Seq<ReplyView>)
    ensures
        ({
            let flow = cli::run_flow(invocation, replies);
            let rest = q::after(replies);
            &&& q::unanswered(RequestView::CurrentDirectory, replies) ==> q::waits(
                flow,
                RequestView::CurrentDirectory,
                replies,
            )
            &&& q::unable(replies) ==> q::fails(
                flow,
                "failed to determine cwd: "@ + replies[0]->Failed_0,
                rest,
            )
            &&& replies.len() > 0 && replies[0] is Text ==> {
                let directory = replies[0]->Text_0;
                match invocation.command {
                    None => flow == cli::new_worktree_flow(
                        directory,
                        invocation.name,
                        invocation.created_path_file,
                        rest,
                    ),
                    Some(SubcommandView::Clean { names, force }) => flow == clean::clean_flow(
                        directory,
                        names,
                        force,
                        rest,
                    ),
                    Some(SubcommandView::ShellInit) => {
                        let print = RequestView::Print { line: cli::SHELL_INIT@ };
                        &&& q::unanswered(print, rest) ==> q::waits(flow, print, rest)
                        &&& rest.len() > 0 && rest[0] is Done ==> q::gives(
                            flow,
                            (),
                            q::after(rest),
                        )
                    },
                    Some(
                        SubcommandView::RunBackgroundSetup {
                            repository_root,
                            worktree_path,
                            status_path,
                            setup_commands,
                        },
                    ) => {
                        let (worked, end) = setup::worker_flow(
                            repository_root,
                            worktree_path,
                            status_path,
                            setup_commands,
                            rest,
                        );
                        match worked {
                            Ok(_) => q::gives(flow, (), end),
                            Err(halt) => flow.0 == Err::<(), HaltView>(halt) && flow.1 == end,
                        }
                    },
                }
            }
        }),
{
    reveal_strlit("failed to determine cwd");
    reveal_strlit(": ");
    reveal_strlit("failed to determine cwd: ");
    assert("failed to determine cwd"@ + ": "@ =~= "failed to determine cwd: "@);
}

/// Law: the function for the shell, letter for letter.
pub proof fn law_the_function_for_the_shell()
    ensures
        cli::SHELL_INIT@ == r#"wt() {
  local wt_path_file worktree_path wt_result
  wt_path_file="$(mktemp)" || return
  command worktree-manager --created-path-file "$wt_path_file" "$@"
  wt_result=$?
  if [ "$wt_result" -eq 0 ]; then
    worktree_path="$(cat "$wt_path_file")"
    wt_result=$?
    rm -f "$wt_path_file"
    [ "$wt_result" -eq 0 ] || return "$wt_result"
    cd -- "$worktree_path"
  else
    rm -f "$wt_path_file"
    return "$wt_result"
  fi
}"#@,
{
}

/// What a creation leaves for the worker is all that the configuration has for it.
proof fn lemma_the_worker_has_all_commands(
    directory: Seq<char>,
    name: Seq<char>,
    base: BaseView,
    replies: Seq<ReplyView>,
    outcome: OutcomeView,
    setup: BackgroundView,
)
    requires
        create::create_flow(directory, name, base, replies).0 == Ok::<OutcomeView, HaltView>(
            outcome,
        ),
        outcome.background_setup == Some(setup),
    ensures
        create::check_flow(directory, name, base, replies).0 matches Ok(site) && {
            &&& site.config matches Some(config)
            &&& setup.commands == config.background_setup_commands
            &&& setup.repository_root == site.main_root
            &&& setup.worktree_path == path::join_of(
                path::join_of(site.root, ".worktrees"@),
                name,
            )
        },
{
}

/// Lines are printed, and nothing else is asked for.
proof fn lemma_lines_are_printed(lines: Seq<Seq<char>>, replies: Seq<ReplyView>)
    ensures
        cli::lines_flow(lines, replies).0 matches Err(halt) ==> halt matches HaltView::Pending(
            request,
        ) && request is Print,
    decreases lines.len(),
{
    if lines.len() > 0 {
        lemma_lines_are_printed(lines.drop_first(), q::after(replies));
    }
}

/// A creation starts no worker yet.
proof fn lemma_creation_starts_no_worker(
    directory: Seq<char>,
    name: Seq<char>,
    base: BaseView,
    replies: Seq<ReplyView>,
    site: SiteView,
)
    requires
        create::check_flow(directory, name, base, replies).0 == Ok::<SiteView, HaltView>(site),
    ensures
        create::create_flow(directory, name, base, replies).0 matches Err(
            HaltView::Pending(request),
        ) ==> !(request is StartWorker),
{
    let rest = create::check_flow(directory, name, base, replies).1;
    let path = path::join_of(path::join_of(site.root, ".worktrees"@), name);
    steps::law_the_order_of_a_creation(directory, name, base, replies, site);
    if let Some(config) = site.config {
        if let (Ok(_), rest1) = create::ignore_flow(site.root, rest) {
            if let (Ok(_), rest2) = create::add_flow(site.root, name, path, base, rest1) {
                creation::lemma_commands_are_told_the_repository(
                    site.main_root,
                    path,
                    config.setup_commands,
                    rest2,
                );
            }
        }
    }
}

/// What follows a creation starts the worker that the creation left.
proof fn lemma_conclusion_starts_the_worker(
    outcome: OutcomeView,
    file: Option<Seq<char>>,
    replies: Seq<ReplyView>,
    request: RequestView,
)
    requires
        cli::conclude_flow(outcome, file, replies).0 == Err::<(), HaltView>(
            HaltView::Pending(request),
        ),
        request is StartWorker,
    ensures
        outcome.background_setup matches Some(setup) && steps::starts_worker(
            request,
            request->StartWorker_executable,
            setup,
        ),
        request->StartWorker_arguments[0] == "__run-background-setup"@,
        request->StartWorker_arguments[1] == "--repository-root"@,
        request->StartWorker_arguments[2] == outcome.background_setup->0.repository_root,
        request->StartWorker_arguments[3] == "--worktree-path"@,
        request->StartWorker_arguments[4] == outcome.background_setup->0.worktree_path,
        request->StartWorker_arguments[5] == "--status-path"@,
        request->StartWorker_arguments[6] == outcome.background_setup->0.status_path,
{
    law_the_order_after_a_creation(outcome, file, replies);
    let (launched, r1) = cli::launch_flow(outcome.background_setup, replies);
    if let Ok(process) = launched {
        let r2 = cli::warn_flow(outcome.config_missing, r1).1;
        let r3 = cli::note_path_flow(file, outcome.path, r2).1;
        lemma_lines_are_printed(cli::summary(outcome, process), r3);
    } else {
        law_how_the_worker_is_launched(outcome.background_setup, replies);
        let setup = outcome.background_setup->0;
        let executable = replies[0]->Text_0;
        steps::law_every_command_reaches_the_worker(
            executable,
            setup,
            q::after(replies),
            request,
        );
        let arguments = request->StartWorker_arguments;
        let first = arguments.take(7);
        assert forall|i: int| 0 <= i < 7 implies arguments[i] == #[trigger] first[i] by {}
        assert(first[0] == arguments[0] && first[1] == arguments[1] && first[2] == arguments[2]);
        assert(first[3] == arguments[3] && first[4] == arguments[4] && first[5] == arguments[5]);
        assert(first[6] == arguments[6]);
    }
}

/// Law: the worker that the program starts for a new worktree is started with every background
/// command of the configuration, in their order, after the subcommand and the three options with
/// the primary checkout, the path of the worktree and the path of the status file.
pub proof fn law_the_worker_of_a_new_worktree(
    directory: Seq<char>,
    name: Option<Seq<char>>,
    file: Option<Seq<char>>,
    replies: Seq<ReplyView>,
    base: BaseView,
    called: Seq<char>,
    site: SiteView,
    config: ConfigView,
    request: RequestView,
)
    requires
        select::prompt_base_flow(directory, replies).0 == Ok::<
            Option<BaseView>,
            HaltView,
        >(Some(base)),
        ({
            let r1 = select::prompt_base_flow(directory, replies).1;
            let r2 = cli::name_flow(name, r1).1;
            &&& cli::name_flow(name, r1).0 == Ok::<Seq<char>, HaltView>(called)
            &&& create::check_flow(directory, called, base, r2).0 == Ok::<SiteView, HaltView>(
                site,
            )
        }),
        site.config == Some(config),
        cli::new_worktree_flow(directory, name, file, replies).0 == Err::<(), HaltView>(
            HaltView::Pending(request),
        ),
        request is StartWorker,
    ensures
        ({
            let arguments = request->StartWorker_arguments;
            let commands = config.background_setup_commands;
            &&& arguments.len() == 7 + commands.len()
            &&& arguments[0] == "__run-background-setup"@
            &&& arguments[1] == "--repository-root"@
            &&& arguments[2] == site.main_root
            &&& arguments[3] == "--worktree-path"@
            &&& arguments[4] == path::join_of(path::join_of(site.root, ".worktrees"@), called)
            &&& arguments[5] == "--status-path"@
            &&& arguments[6] == create::create_flow(
                directory,
                called,
                base,
                cli::name_flow(name, select::prompt_base_flow(directory, replies).1).1,
            ).0->Ok_0.background_setup->0.status_path
            &&& forall|i: int|
                0 <= i < commands.len() ==> arguments[7 + i] == "--setup-command="@ + (
                #[trigger] commands[i])
        }),
{
    let r1 = select::prompt_base_flow(directory, replies).1;
    let r2 = cli::name_flow(name, r1).1;
    law_the_order_of_a_new_worktree(directory, name, file, replies);
    lemma_creation_starts_no_worker(directory, called, base, r2, site);
    let (created, r3) = create::create_flow(directory, called, base, r2);
    if let Ok(outcome) = created {
        lemma_conclusion_starts_the_worker(outcome, file, r3, request);
        let setup = outcome.background_setup->0;
        lemma_the_worker_has_all_commands(directory, called, base, r2, outcome, setup);
    }
}

} // verus!
