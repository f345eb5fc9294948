use worktree_manager::clean::{
    confirm_removal, confirmation_is_affirmative, find_worktree_around, find_worktree_by_name,
    find_worktrees_by_name, pick_rows, select_worktrees_to_remove, select_worktrees_with_fzf,
    worktree_rows,
};
use worktree_manager::host::{reply_fits, Halt, Output, Reply, Request, Session};
use worktree_manager::select::{choose_base, prompt_worktree_base, select_worktree_base_with_fzf};
use worktree_manager::{ManagedWorktree, WorktreeBase};

/// Runs a part of the program, with a function that answers its requests.
fn drive<T>(
    part: impl Fn(&mut Session<'_>) -> Result<T, Halt>,
    mut answer: impl FnMut(&Request) -> Reply,
) -> Result<T, String> {
    let mut replies = Vec::new();
    loop {
        match part(&mut Session::new(&replies)) {
            Ok(value) => return Ok(value),
            Err(Halt::Failed(message)) => return Err(message),
            Err(Halt::Pending(request)) => {
                let reply = answer(&request);
                assert!(reply_fits(&request, &reply), "{request:?} {reply:?}");
                replies.push(reply);
            }
        }
    }
}

fn ended(code: i32, stdout: &str) -> Reply {
    Reply::Ended(Output {
        code: Some(code),
        status: format!("exit status: {code}"),
        stdout: stdout.as_bytes().to_vec(),
        stderr: Vec::new(),
    })
}

/// Answers as an `fzf` would that writes what a function makes of its arguments and its rows.
fn fzf(select: impl Fn(&[String], &[&str]) -> Reply) -> impl FnMut(&Request) -> Reply {
    let mut given: Vec<String> = Vec::new();
    let mut read = String::new();
    move |request| match request {
        Request::StartSelector { arguments } => {
            given = arguments.iter().map(|argument| argument.to_string()).collect();
            Reply::Done
        }
        Request::FeedSelector { rows } => {
            read = rows.to_string();
            Reply::Done
        }
        Request::AwaitSelector => select(&given, &read.lines().collect::<Vec<_>>()),
        other => panic!("unexpected {other:?}"),
    }
}

fn branches(names: &[&str]) -> Vec<WorktreeBase> {
    names
        .iter()
        .map(|name| WorktreeBase::LocalBranch(name.to_string()))
        .collect()
}

fn managed_worktrees() -> Vec<ManagedWorktree> {
    vec![
        ManagedWorktree {
            name: "feature-a".to_string(),
            path: "/repo/.worktrees/feature-a".to_string(),
            branch: Some("eq/feat/a".to_string()),
        },
        ManagedWorktree {
            name: "b".to_string(),
            path: "/repo/.worktrees/b".to_string(),
            branch: None,
        },
    ]
}

#[test]
fn fzf_selects_a_local_branch() {
    let bases = branches(&["main", "feature-a"]);

    assert_eq!(
        drive(
            |session| select_worktree_base_with_fzf(&bases, None, session),
            fzf(|_, rows| ended(0, &format!("{}\n", rows[1]))),
        )
        .unwrap(),
        Some(WorktreeBase::LocalBranch("feature-a".to_string()))
    );
}

#[test]
fn fzf_defaults_to_the_current_local_branch() {
    let bases = branches(&["newest", "current", "oldest"]);

    assert_eq!(
        drive(
            |session| select_worktree_base_with_fzf(&bases, Some(&bases[1]), session),
            fzf(|arguments, rows| {
                if arguments.contains(&"--bind=load:pos(2)".to_string()) {
                    ended(0, &format!("{}\n", rows[1]))
                } else {
                    ended(1, "")
                }
            }),
        )
        .unwrap(),
        Some(WorktreeBase::LocalBranch("current".to_string()))
    );
}

#[test]
fn fzf_moves_to_the_first_match_when_the_query_changes() {
    let bases = branches(&["newest", "current"]);

    assert_eq!(
        drive(
            |session| select_worktree_base_with_fzf(&bases, Some(&bases[1]), session),
            fzf(|arguments, rows| {
                if arguments.contains(&"--bind=change:first".to_string()) {
                    ended(0, &format!("{}\n", rows[0]))
                } else {
                    ended(1, "")
                }
            }),
        )
        .unwrap(),
        Some(WorktreeBase::LocalBranch("newest".to_string()))
    );
}

#[test]
fn cancelling_fzf_cancels_branch_selection() {
    let bases = branches(&["main"]);

    assert_eq!(
        drive(
            |session| select_worktree_base_with_fzf(&bases, None, session),
            fzf(|_, _| ended(130, "")),
        )
        .unwrap(),
        None
    );
}

#[test]
fn fzf_cannot_select_an_unknown_branch() {
    let bases = branches(&["main"]);

    assert_eq!(
        drive(
            |session| select_worktree_base_with_fzf(&bases, None, session),
            fzf(|_, _| ended(0, "missing\n")),
        )
        .unwrap_err(),
        "fzf returned unknown base branch 'missing'"
    );
}

#[test]
fn missing_fzf_reports_how_to_resolve_the_dependency() {
    let bases = branches(&["main"]);

    assert_eq!(
        drive(
            |session| select_worktree_base_with_fzf(&bases, None, session),
            |_| Reply::Absent,
        )
        .unwrap_err(),
        "fzf is required for interactive branch selection; install fzf and try again"
    );
}

#[test]
fn fzf_selects_multiple_worktrees() {
    let worktrees = managed_worktrees();

    assert_eq!(
        drive(
            |session| select_worktrees_with_fzf(&worktrees, None, session),
            fzf(|arguments, rows| {
                if arguments.contains(&"--multi".to_string()) {
                    ended(0, &format!("{}\n{}\n", rows[0], rows[1]))
                } else {
                    ended(1, "")
                }
            }),
        )
        .unwrap(),
        worktrees
    );
}

#[test]
fn fzf_defaults_to_the_worktree_the_command_runs_from() {
    let worktrees = managed_worktrees();

    assert_eq!(
        drive(
            |session| select_worktrees_with_fzf(&worktrees, Some(&worktrees[1]), session),
            fzf(|arguments, rows| {
                if arguments.contains(&"--bind=load:pos(2)".to_string()) {
                    ended(0, &format!("{}\n", rows[1]))
                } else {
                    ended(1, "")
                }
            }),
        )
        .unwrap(),
        vec![worktrees[1].clone()]
    );
}

#[test]
fn cancelling_fzf_selects_no_worktrees() {
    assert_eq!(
        drive(
            |session| select_worktrees_with_fzf(&managed_worktrees(), None, session),
            fzf(|_, _| ended(130, "")),
        )
        .unwrap(),
        Vec::new()
    );
}

#[test]
fn fzf_cannot_select_an_unknown_worktree() {
    assert_eq!(
        drive(
            |session| select_worktrees_with_fzf(&managed_worktrees(), None, session),
            fzf(|_, _| ended(0, "missing\n")),
        )
        .unwrap_err(),
        "fzf returned unknown worktree 'missing'"
    );
}

#[test]
fn removal_is_confirmed_only_by_an_explicit_yes() {
    assert!(confirmation_is_affirmative("y\n"));
    assert!(confirmation_is_affirmative("Y\n"));

    for answer in ["", "\n", "n\n", "yes\n", "no\n"] {
        assert!(!confirmation_is_affirmative(answer), "{answer:?} confirmed");
    }
}

#[test]
fn fzf_is_given_its_arguments_and_rows() {
    let bases = branches(&["main", "work"]);
    let mut requests = Vec::new();
    let mut answer = fzf(|_, _| ended(0, "work\n"));
    let chosen = drive(
        |session| select_worktree_base_with_fzf(&bases, Some(&bases[0]), session),
        |request| {
            requests.push(format!("{request:?}"));
            answer(request)
        },
    );
    assert_eq!(chosen, Ok(Some(WorktreeBase::LocalBranch("work".to_string()))));
    assert_eq!(
        requests,
        vec![
            format!(
                "{:?}",
                Request::StartSelector {
                    arguments: [
                        "--height=40%",
                        "--layout=reverse",
                        "--border",
                        "--no-multi",
                        "--prompt=Base branch: ",
                        "--bind=change:first",
                        "--bind=load:pos(1)",
                    ]
                    .iter()
                    .map(|argument| argument.to_string())
                    .collect(),
                }
            ),
            format!("{:?}", Request::FeedSelector { rows: "main\nwork\n".to_string() }),
            format!("{:?}", Request::AwaitSelector),
        ]
    );
}

#[test]
fn every_fault_of_a_selection_has_its_message() {
    let bases = branches(&["main"]);
    let select = |replies: Vec<Reply>| {
        let mut replies = replies.into_iter();
        drive(
            |session| select_worktree_base_with_fzf(&bases, None, session),
            move |_| replies.next().unwrap(),
        )
    };
    assert_eq!(
        select(vec![Reply::Failed("denied".to_string())]).unwrap_err(),
        "failed to start fzf for base branch selection: denied"
    );
    assert_eq!(
        select(vec![Reply::Done, Reply::Done, Reply::Failed("lost".to_string())]).unwrap_err(),
        "failed to wait for fzf base branch selection: lost"
    );
    assert_eq!(
        select(vec![Reply::Done, Reply::Failed("broken pipe".to_string()), ended(2, "")])
            .unwrap_err(),
        "fzf base branch selection failed with status exit status: 2"
    );
    assert_eq!(
        select(vec![Reply::Done, Reply::Failed("broken pipe".to_string()), ended(130, "")]),
        Ok(None)
    );
    assert_eq!(
        select(vec![Reply::Done, Reply::Failed("broken pipe".to_string()), ended(0, "main\n")])
            .unwrap_err(),
        "failed to send branches to fzf: broken pipe"
    );
    assert_eq!(
        select(vec![Reply::Done, Reply::Absent, ended(0, "main\n")]).unwrap_err(),
        "failed to open fzf input"
    );
    assert_eq!(
        drive(|session| select_worktree_base_with_fzf(&[], None, session), |_| Reply::Done)
            .unwrap_err(),
        "cannot select a base branch because the repository has no local branches"
    );
}

#[test]
fn a_signal_is_no_cancellation() {
    let bases = branches(&["main"]);
    let result = drive(
        |session| select_worktree_base_with_fzf(&bases, None, session),
        fzf(|_, _| {
            Reply::Ended(Output {
                code: None,
                status: "signal: 9 (SIGKILL)".to_string(),
                stdout: Vec::new(),
                stderr: Vec::new(),
            })
        }),
    );
    assert_eq!(
        result.unwrap_err(),
        "fzf base branch selection failed with status signal: 9 (SIGKILL)"
    );
}

#[test]
fn without_a_terminal_nobody_is_asked_for_the_base() {
    assert_eq!(
        drive(
            |session| prompt_worktree_base("/repo", session),
            |request| match request {
                Request::InputIsTerminal => Reply::Answer(false),
                other => panic!("unexpected {other:?}"),
            },
        ),
        Ok(Some(WorktreeBase::OriginMain))
    );
}

#[test]
fn a_label_gives_its_base() {
    let bases = vec![
        WorktreeBase::OriginMain,
        WorktreeBase::LocalBranch("work".to_string()),
    ];
    assert_eq!(choose_base(&bases, " work \n"), Ok(bases[1].clone()));
    assert_eq!(choose_base(&bases, "origin/main\n"), Ok(bases[0].clone()));
    assert_eq!(
        choose_base(&bases, "\n"),
        Err("fzf returned unknown base branch ''".to_string())
    );
}

#[test]
fn rows_show_names_in_a_column_and_branches_beside_it() {
    assert_eq!(
        worktree_rows(&managed_worktrees()),
        vec!["feature-a  eq/feat/a".to_string(), "b          (detached)".to_string()]
    );
    assert_eq!(worktree_rows(&[]), Vec::<String>::new());
}

#[test]
fn the_column_is_as_wide_as_the_longest_name_has_bytes() {
    let mut worktrees = managed_worktrees();
    worktrees[0].name = "\u{e9}\u{e9}".to_string();
    assert_eq!(
        worktree_rows(&worktrees),
        vec!["\u{e9}\u{e9}    eq/feat/a".to_string(), "b     (detached)".to_string()]
    );
}

#[test]
fn selected_rows_give_their_worktrees_in_the_order_of_the_selection() {
    let worktrees = managed_worktrees();
    let rows = worktree_rows(&worktrees);
    assert_eq!(
        pick_rows(&worktrees, &format!("{}\n{}\n{}\n", rows[1], rows[0], rows[1])),
        Ok(vec![
            worktrees[1].clone(),
            worktrees[0].clone(),
            worktrees[1].clone()
        ])
    );
    assert_eq!(pick_rows(&worktrees, ""), Ok(Vec::new()));
    assert_eq!(
        pick_rows(&worktrees, &format!("{}\nb\n", rows[0])),
        Err("fzf returned unknown worktree 'b'".to_string())
    );
}

#[test]
fn worktrees_are_found_by_name() {
    let worktrees = managed_worktrees();
    assert_eq!(find_worktree_by_name(&worktrees, "b"), Ok(worktrees[1].clone()));
    assert_eq!(
        find_worktree_by_name(&worktrees, "c"),
        Err("no worktree named 'c' in .worktrees/".to_string())
    );
    assert_eq!(
        find_worktrees_by_name(&worktrees, &["b".to_string(), "feature-a".to_string()]),
        Ok(vec![worktrees[1].clone(), worktrees[0].clone()])
    );
    assert_eq!(
        find_worktrees_by_name(
            &worktrees,
            &["b".to_string(), "c".to_string(), "d".to_string()]
        ),
        Err("no worktree named 'c' in .worktrees/".to_string())
    );
}

#[test]
fn a_directory_lies_in_its_worktree_and_not_beside_it() {
    let worktrees = managed_worktrees();
    assert_eq!(
        find_worktree_around(&worktrees, "/repo/.worktrees/b/src"),
        Some(&worktrees[1])
    );
    assert_eq!(
        find_worktree_around(&worktrees, "/repo/.worktrees/b"),
        Some(&worktrees[1])
    );
    assert_eq!(find_worktree_around(&worktrees, "/repo/.worktrees/bc"), None);
    assert_eq!(find_worktree_around(&worktrees, "/repo"), None);
}

#[test]
fn the_cursor_starts_on_the_worktree_of_the_canonical_directory() {
    let worktrees = managed_worktrees();
    for (canonical, position) in [
        (Reply::Text("/repo/.worktrees/b".to_string()), Some(2)),
        (Reply::Failed("gone".to_string()), Some(1)),
        (Reply::Text("/elsewhere".to_string()), None),
    ] {
        let mut canonical = Some(canonical);
        let mut select = fzf(|_, _| ended(130, ""));
        let mut given = Vec::new();
        let selected = drive(
            |session| {
                select_worktrees_to_remove("/repo/.worktrees/feature-a", &worktrees, &[], session)
            },
            |request| match request {
                Request::InputIsTerminal => Reply::Answer(true),
                Request::Canonicalize { path } => {
                    assert_eq!(path, "/repo/.worktrees/feature-a");
                    canonical.take().unwrap()
                }
                Request::StartSelector { arguments } => {
                    given = arguments.iter().map(|argument| argument.to_string()).collect();
                    select(request)
                }
                other => select(other),
            },
        );
        assert_eq!(selected, Ok(Vec::new()));
        assert_eq!(given.len(), if position.is_some() { 8 } else { 7 });
        if let Some(position) = position {
            assert_eq!(given[7], format!("--bind=load:pos({position})"));
        }
    }
}

#[test]
fn a_removal_is_asked_about_at_a_terminal_only() {
    let worktrees = managed_worktrees();
    for (force, question) in [
        (false, "Remove 2 worktree(s)? [y/N] "),
        (true, "Remove 2 worktree(s) (force)? [y/N] "),
    ] {
        let mut told = Vec::new();
        let confirmed = drive(
            |session| confirm_removal(&worktrees, force, session),
            |request| match request {
                Request::InputIsTerminal => Reply::Answer(true),
                Request::Print { line } => {
                    told.push(line.to_string());
                    Reply::Done
                }
                Request::Prompt { question } => {
                    told.push(question.to_string());
                    Reply::Done
                }
                Request::ReadLine => Reply::Text(" y \n".to_string()),
                other => panic!("unexpected {other:?}"),
            },
        );
        assert_eq!(confirmed, Ok(true));
        assert_eq!(
            told,
            vec!["/repo/.worktrees/feature-a", "/repo/.worktrees/b", question]
        );
    }
    let mut asked = 0;
    let confirmed = drive(
        |session| confirm_removal(&worktrees, false, session),
        |_| {
            asked += 1;
            Reply::Answer(false)
        },
    );
    assert_eq!(confirmed, Ok(true));
    assert_eq!(asked, 1);
}

#[test]
fn every_fault_of_a_confirmation_has_its_message() {
    let confirm = |prompted: Reply, read: Reply| {
        let mut replies = vec![Reply::Answer(true), Reply::Done, Reply::Done, prompted, read]
            .into_iter();
        drive(
            |session| confirm_removal(&managed_worktrees(), false, session),
            move |_| replies.next().unwrap(),
        )
    };
    assert_eq!(
        confirm(Reply::Failed("closed".to_string()), Reply::Done).unwrap_err(),
        "failed to write confirmation prompt: closed"
    );
    assert_eq!(
        confirm(Reply::Done, Reply::Failed("closed".to_string())).unwrap_err(),
        "failed to read confirmation: closed"
    );
    assert_eq!(confirm(Reply::Done, Reply::Text("nope\n".to_string())), Ok(false));
}
