use std::collections::{BTreeMap, BTreeSet};
use worktree_manager::cli::{run, Invocation, Subcommand, SHELL_INIT};
use worktree_manager::git::{git_directory_holder, git_path, primary_worktree_root};
use worktree_manager::host::{reply_fits, Halt, Output, Reply, Request, Session};
use worktree_manager::setup::shell_command;
use worktree_manager::{
    create_and_setup_worktree, create_and_setup_worktree_from_base, current_worktree_base,
    generate_random_name, list_managed_worktrees, list_worktree_bases, load_config,
    main_worktree_root, prune_worktree_metadata, remove_worktree, run_background_setup_worker,
    start_background_setup, BackgroundSetup, BranchOutcome, ManagedWorktree, WorktreeBase,
    WorktreeConfig, WorktreeOutcome, BACKGROUND_SETUP_WORKER_COMMAND, CONFIG_FILE_NAME,
    SETUP_REPOSITORY_ROOT_ENV,
};

/// A repository at `/repo` and what is around it.
struct World {
    directory: String,
    terminal: bool,
    /// Whether the head has no commit yet.
    unborn: bool,
    /// The references, each with its commit and the date of that commit.
    references: BTreeMap<String, (String, u32)>,
    /// The branch that is checked out in the main work tree.
    head: Option<String>,
    files: BTreeMap<String, String>,
    directories: BTreeSet<String>,
    worktrees: Vec<(String, Option<String>)>,
    dirty: BTreeSet<String>,
    unmerged: BTreeSet<String>,
    /// The position of the row that is selected with `fzf`.
    choice: Option<usize>,
    answer: String,
    out: Vec<String>,
    err: Vec<String>,
    /// What Git was run for.
    commands: Vec<String>,
    log: Option<String>,
    workers: Vec<Vec<String>>,
    /// How the requests that fail start.
    fault: Option<String>,
}

fn owned(texts: &[&str]) -> Vec<String> {
    texts.iter().map(|text| text.to_string()).collect()
}

fn output(code: i32, stdout: &str, stderr: &str) -> Output {
    Output {
        code: Some(code),
        status: format!("exit status: {code}"),
        stdout: stdout.as_bytes().to_vec(),
        stderr: stderr.as_bytes().to_vec(),
    }
}

fn strings(value: &serde_json::Value) -> Vec<String> {
    value
        .as_array()
        .map(|list| list.iter().map(|item| item.as_str().unwrap().to_string()).collect())
        .unwrap_or_default()
}

impl World {
    fn new() -> World {
        let mut world = World {
            directory: "/repo".to_string(),
            terminal: false,
            unborn: false,
            references: BTreeMap::new(),
            head: Some("main".to_string()),
            files: BTreeMap::new(),
            directories: BTreeSet::new(),
            worktrees: Vec::new(),
            dirty: BTreeSet::new(),
            unmerged: BTreeSet::new(),
            choice: None,
            answer: String::new(),
            out: Vec::new(),
            err: Vec::new(),
            commands: Vec::new(),
            log: None,
            workers: Vec::new(),
            fault: None,
        };
        world.directories.insert("/repo".to_string());
        world.commit("refs/heads/main", "initial", 20000101);
        world.commit("refs/remotes/origin/main", "initial", 20000101);
        world
    }

    fn commit(&mut self, reference: &str, commit: &str, date: u32) {
        self.references
            .insert(reference.to_string(), (commit.to_string(), date));
    }

    fn write_config(&mut self, contents: &str) {
        self.files
            .insert(format!("/repo/{CONFIG_FILE_NAME}"), contents.to_string());
    }

    fn has(&self, path: &str) -> bool {
        self.directories.contains(path) || self.files.contains_key(path)
    }

    fn top(&self, directory: &str) -> Option<String> {
        let mut roots: Vec<&str> = self.worktrees.iter().map(|(path, _)| path.as_str()).collect();
        roots.push("/repo");
        roots
            .into_iter()
            .find(|root| directory == *root || directory.starts_with(&format!("{root}/")))
            .map(|root| root.to_string())
    }

    fn git(&mut self, directory: &str, arguments: &[String]) -> Output {
        self.commands.push(arguments.join(" "));
        let words: Vec<&str> = arguments.iter().map(|argument| argument.as_str()).collect();
        let top = match self.top(directory) {
            Some(top) => top,
            None => return output(128, "", "fatal: not a git repository\n"),
        };
        match words.as_slice() {
            ["rev-parse", "--show-toplevel"] => output(0, &format!("{top}\n"), ""),
            ["rev-parse", "--is-bare-repository"] => output(0, "false\n", ""),
            ["rev-parse", "--verify", "HEAD"] if self.unborn => {
                output(128, "", "fatal: Needed a single revision\n")
            }
            ["rev-parse", "--verify", "HEAD"] => output(0, "initial\n", ""),
            ["rev-parse", "--verify", "--quiet", revision] => {
                match self.references.get(revision.strip_suffix("^{commit}").unwrap()) {
                    Some((commit, _)) => output(0, &format!("{commit}\n"), ""),
                    None => output(1, "", ""),
                }
            }
            ["show-ref", "--verify", "--quiet", reference] => {
                output(if self.references.contains_key(*reference) { 0 } else { 1 }, "", "")
            }
            ["rev-parse", "--git-path", path] => match top.strip_prefix("/repo/.worktrees/") {
                Some(name) if *path != "info/exclude" => {
                    output(0, &format!("/repo/.git/worktrees/{name}/{path}\n"), "")
                }
                Some(_) => output(0, &format!("/repo/.git/{path}\n"), ""),
                None => output(0, &format!(".git/{path}\n"), ""),
            },
            ["rev-list", "--max-count=1", "--all"] => {
                let commits = self.references.values().map(|(commit, _)| format!("{commit}\n"));
                output(0, &commits.take(1).collect::<String>(), "")
            }
            ["rev-parse", "--path-format=absolute", "--git-common-dir"] => {
                output(0, "/repo/.git\n", "")
            }
            ["rev-parse", "--path-format=absolute", "--git-dir"] => {
                match top.strip_prefix("/repo/.worktrees/") {
                    Some(name) => output(0, &format!("/repo/.git/worktrees/{name}\n"), ""),
                    None => output(0, "/repo/.git\n", ""),
                }
            }
            ["for-each-ref", "--sort=-committerdate", "--format=%(refname:short)", prefix] => {
                let prefix = format!("{prefix}/");
                let mut found: Vec<(u32, &str)> = self
                    .references
                    .iter()
                    .filter_map(|(name, (_, date))| Some((*date, name.strip_prefix(&prefix)?)))
                    .collect();
                found.sort_by(|left, right| right.0.cmp(&left.0));
                let names: Vec<&str> = found.iter().map(|(_, name)| *name).collect();
                output(0, &names.join("\n"), "")
            }
            ["symbolic-ref", "--quiet", "--short", "HEAD"] => match &self.head {
                Some(branch) => output(0, &format!("{branch}\n"), ""),
                None => output(1, "", ""),
            },
            ["worktree", "prune"] => {
                let directories = &self.directories;
                self.worktrees.retain(|(path, _)| directories.contains(path));
                output(0, "", "")
            }
            ["worktree", "list", "--porcelain"] => {
                let mut records = "worktree /repo\nHEAD 1\nbranch refs/heads/main\n\n".to_string();
                for (path, branch) in &self.worktrees {
                    let state = match branch {
                        Some(branch) => format!("branch refs/heads/{branch}"),
                        None => "detached".to_string(),
                    };
                    records.push_str(&format!("worktree {path}\nHEAD 2\n{state}\n\n"));
                }
                output(0, &records, "")
            }
            ["worktree", "add", "-b", name, path, reference] => {
                let start = self.references[*reference].clone();
                self.references.insert(format!("refs/heads/{name}"), start);
                self.directories.insert(path.to_string());
                self.worktrees.push((path.to_string(), Some(name.to_string())));
                output(0, "", "")
            }
            ["worktree", "remove", rest @ ..] => {
                let path = rest[rest.len() - 1].to_string();
                if self.dirty.contains(&path) && rest[0] != "--force" {
                    return output(
                        128,
                        "",
                        &format!(
                            "fatal: '{path}' contains modified or untracked files, use --force\n"
                        ),
                    );
                }
                self.directories.remove(&path);
                self.worktrees.retain(|(other, _)| *other != path);
                output(0, "", "")
            }
            ["branch", flag, branch] => {
                if self.unmerged.contains(*branch) && *flag == "-d" {
                    return output(
                        1,
                        "",
                        &format!("error: the branch '{branch}' is not fully merged\nhint: -D\n"),
                    );
                }
                self.references.remove(&format!("refs/heads/{branch}"));
                output(0, "", "")
            }
            _ => panic!("unexpected git {arguments:?}"),
        }
    }

    fn shell(&mut self, directory: &str, command: &str, variable: &str, value: &str) -> Output {
        for step in command.split("; ") {
            if let Some(code) = step.strip_prefix("exit ") {
                return output(code.parse().unwrap(), "", "");
            }
            if step == "sleep 2" {
                continue;
            }
            let (said, file) = match step.split_once(" > ") {
                Some((said, file)) => (said, Some(file)),
                None => (step, None),
            };
            let said = match said.strip_prefix("echo ") {
                Some(words) => format!("{words}\n"),
                None => said
                    .strip_prefix("printf %s ")
                    .unwrap()
                    .replace(&format!("\"${{{variable}}}\""), value),
            };
            let file = match file {
                Some(file) => format!("{directory}/{file}"),
                None => self.log.clone().unwrap_or("/dev/stdout".to_string()),
            };
            self.files.entry(file).or_default().push_str(&said);
        }
        output(0, "", "")
    }

    fn perform(&mut self, request: &Request) -> Reply {
        if let Some(start) = &self.fault {
            if format!("{request:?}").starts_with(start) {
                return Reply::Failed("no".to_string());
            }
        }
        match request {
            Request::Git { directory, arguments }
            | Request::GitAttached { directory, arguments } => {
                Reply::Ended(self.git(directory, arguments))
            }
            Request::Shell { directory, command, variable, value } => {
                Reply::Ended(self.shell(directory, command, variable, value))
            }
            Request::Exists { path } => Reply::Answer(self.has(path)),
            Request::Read { path } => match self.files.get(path) {
                Some(contents) => Reply::Text(contents.to_string()),
                None => Reply::Absent,
            },
            Request::Write { path, contents } => {
                self.files.insert(path.to_string(), contents.to_string());
                Reply::Done
            }
            Request::Remove { path } => match self.files.remove(path) {
                Some(_) => Reply::Done,
                None => Reply::Absent,
            },
            Request::CreateDirectory { path } => {
                self.directories.insert(path.to_string());
                Reply::Done
            }
            Request::ParseConfig { contents } => {
                match serde_json::from_str::<serde_json::Value>(contents) {
                    Ok(value) => Reply::Config(WorktreeConfig {
                        setup_commands: strings(&value["setupCommands"]),
                        background_setup_commands: strings(&value["backgroundSetupCommands"]),
                    }),
                    Err(error) => Reply::Failed(error.to_string()),
                }
            }
            Request::CreateLog { path } => {
                self.files.insert(path.to_string(), String::new());
                Reply::Done
            }
            Request::ShareLog { .. } => Reply::Done,
            Request::StartWorker { executable, arguments } => {
                assert_eq!(executable, "/bin/worktree-manager");
                self.workers
                    .push(arguments.iter().map(|argument| argument.to_string()).collect());
                Reply::Started(4711)
            }
            Request::CurrentDirectory => Reply::Text(self.directory.clone()),
            Request::CurrentExecutable => Reply::Text("/bin/worktree-manager".to_string()),
            Request::Canonicalize { path } => Reply::Text(path.to_string()),
            Request::InputIsTerminal => Reply::Answer(self.terminal),
            Request::RandomName => Reply::Text(generate_random_name()),
            Request::Print { line } => {
                self.out.push(line.to_string());
                Reply::Done
            }
            Request::Report { line } => {
                self.err.push(line.to_string());
                Reply::Done
            }
            Request::Prompt { question } => {
                self.out.push(question.to_string());
                Reply::Done
            }
            Request::ReadLine => Reply::Text(self.answer.clone()),
            Request::StartSelector { .. } => Reply::Done,
            Request::FeedSelector { rows } => {
                self.answer = match self.choice {
                    Some(at) => rows.lines().nth(at).unwrap().to_string(),
                    None => String::new(),
                };
                Reply::Done
            }
            Request::AwaitSelector => Reply::Ended(match self.choice {
                Some(_) => {
                    let row = format!("{}\n", self.answer);
                    self.answer = "y\n".to_string();
                    output(0, &row, "")
                }
                None => output(130, "", ""),
            }),
        }
    }

    /// Runs a part of the program in this world.
    fn drive<T>(
        &mut self,
        part: impl Fn(&mut Session<'_>) -> Result<T, Halt>,
    ) -> Result<T, String> {
        let mut replies = Vec::new();
        loop {
            match part(&mut Session::new(&replies)) {
                Ok(value) => return Ok(value),
                Err(Halt::Failed(message)) => return Err(message),
                Err(Halt::Pending(request)) => {
                    let reply = self.perform(&request);
                    assert!(reply_fits(&request, &reply), "{request:?} {reply:?}");
                    replies.push(reply);
                }
            }
        }
    }

    fn create(&mut self, name: Option<&str>) -> Result<(), String> {
        let invocation = Invocation {
            command: None,
            name: name.map(|name| name.to_string()),
            created_path_file: None,
        };
        self.drive(|session| run(&invocation, session))
    }

    fn clean(&mut self, names: &[&str], force: bool) -> Result<(), String> {
        let invocation = Invocation {
            command: Some(Subcommand::Clean { names: owned(names), force }),
            name: None,
            created_path_file: None,
        };
        self.drive(|session| run(&invocation, session))
    }

    /// Lets the workers that were started do their work.
    fn work(&mut self) {
        for arguments in std::mem::take(&mut self.workers) {
            assert_eq!(arguments[0], BACKGROUND_SETUP_WORKER_COMMAND);
            assert_eq!(arguments[1], "--repository-root");
            assert_eq!(arguments[3], "--worktree-path");
            assert_eq!(arguments[5], "--status-path");
            let invocation = Invocation {
                command: Some(Subcommand::RunBackgroundSetup {
                    repository_root: arguments[2].clone(),
                    worktree_path: arguments[4].clone(),
                    status_path: arguments[6].clone(),
                    setup_commands: arguments[7..]
                        .iter()
                        .map(|argument| {
                            argument.strip_prefix("--setup-command=").unwrap().to_string()
                        })
                        .collect(),
                }),
                name: None,
                created_path_file: None,
            };
            let log = arguments[6].replace(".status", ".log");
            self.log = Some(log.clone());
            if let Err(message) = self.drive(|session| run(&invocation, session)) {
                self.files.get_mut(&log).unwrap().push_str(&format!("error: {message}\n"));
            }
            self.log = None;
        }
    }
}

const PATH: &str = "/repo/.worktrees/feature-a";
const STATUS: &str = "/repo/.git/worktree-manager/setup/feature-a.status";
const LOG: &str = "/repo/.git/worktree-manager/setup/feature-a.log";

#[test]
fn load_config_returns_none_when_file_is_missing() {
    let mut world = World::new();
    let found = world.drive(|session| Ok(load_config("/repo", session)?.is_none()));
    assert_eq!(found, Ok(true));
}

fn loaded(contents: &str) -> Result<Option<WorktreeConfig>, String> {
    let mut world = World::new();
    world.write_config(contents);
    world.drive(|session| {
        Ok(load_config("/repo", session)?.map(|config| WorktreeConfig {
            setup_commands: config.setup_commands.clone(),
            background_setup_commands: config.background_setup_commands.clone(),
        }))
    })
}

#[test]
fn load_config_parses_setup_commands() {
    assert_eq!(
        loaded(r#"{"setupCommands":["cargo fetch","cargo test"]}"#).unwrap(),
        Some(WorktreeConfig {
            setup_commands: vec!["cargo fetch".to_string(), "cargo test".to_string()],
            background_setup_commands: Vec::new(),
        })
    );
}

#[test]
fn load_config_parses_background_setup_commands_without_foreground_commands() {
    assert_eq!(
        loaded(r#"{"backgroundSetupCommands":["npm install"]}"#).unwrap(),
        Some(WorktreeConfig {
            setup_commands: Vec::new(),
            background_setup_commands: vec!["npm install".to_string()],
        })
    );
}

#[test]
fn load_config_fails_for_invalid_json() {
    assert!(loaded("{").unwrap_err().contains("failed to parse"));
}

#[test]
fn creates_worktree_and_runs_setup_commands() {
    let mut world = World::new();
    world.write_config(r#"{"setupCommands":["echo setup > setup.txt"]}"#);

    assert_eq!(world.create(Some("feature-a")), Ok(()));

    assert_eq!(
        world.out,
        vec![
            "created worktree 'feature-a'".to_string(),
            format!("path: {PATH}"),
            "ran 1 setup command(s)".to_string(),
        ]
    );
    assert!(world.has(&format!("{PATH}/setup.txt")));
    assert_eq!(world.files["/repo/.git/info/exclude"], "/.worktrees/\n");
}

#[test]
fn setup_commands_receive_primary_repository_root() {
    let mut world = World::new();
    let variable = format!(r#"\"${{{SETUP_REPOSITORY_ROOT_ENV}}}\""#);
    let command = format!("printf %s {variable} > setup-repo-root.txt");
    world.write_config(&format!(r#"{{"setupCommands":["{command}"]}}"#));

    assert_eq!(world.create(Some("feature-a")), Ok(()));

    assert_eq!(world.files[&format!("{PATH}/setup-repo-root.txt")], "/repo");
}

#[test]
fn starts_background_setup_without_waiting_for_it_to_finish() {
    let mut world = World::new();
    world.write_config(r#"{"backgroundSetupCommands":["echo started; sleep 2; echo finished"]}"#);

    assert_eq!(world.create(Some("feature-a")), Ok(()));

    assert_eq!(
        world.out[2..],
        [
            "started 1 background setup command(s) (pid 4711)".to_string(),
            format!("setup status: {STATUS}"),
            format!("setup log: {LOG}"),
        ]
    );
    assert_eq!(world.files[STATUS], "pending\n");
    assert_eq!(world.files[LOG], "");

    world.work();

    assert_eq!(world.files[STATUS], "succeeded\n");
    assert_eq!(world.files[LOG], "started\nfinished\n");
}

#[test]
fn background_setup_failure_does_not_fail_worktree_creation() {
    let mut world = World::new();
    world.write_config(r#"{"backgroundSetupCommands":["echo failing; exit 7"]}"#);

    assert_eq!(world.create(Some("feature-a")), Ok(()));
    world.work();

    assert!(world.files[STATUS].starts_with("failed\n"));
    assert!(world.files[STATUS].contains("failed with status"));
    assert!(world.files[LOG]
        .contains("setup command 'echo failing; exit 7' failed with status"));
    assert!(world.has(PATH));
}

#[test]
fn creates_worktree_from_origin_main_instead_of_current_head() {
    let mut world = World::new();
    world.commit("refs/heads/main", "local-only", 20000102);

    assert_eq!(world.create(Some("feature-a")), Ok(()));

    assert_eq!(
        world.references["refs/heads/feature-a"],
        world.references["refs/remotes/origin/main"]
    );
    assert_ne!(
        world.references["refs/heads/main"],
        world.references["refs/heads/feature-a"]
    );
}

#[test]
fn creates_worktree_from_selected_local_branch() {
    let mut world = World::new();
    world.commit("refs/heads/recent-work", "recent", 20000102);

    let base = WorktreeBase::LocalBranch("recent-work".to_string());
    let outcome = world
        .drive(|session| create_and_setup_worktree_from_base("/repo", "feature-a", &base, session))
        .unwrap();

    assert_eq!(outcome.path, PATH);
    assert!(outcome.config_missing);
    assert_eq!(
        world.references["refs/heads/feature-a"],
        world.references["refs/heads/recent-work"]
    );
}

#[test]
fn lists_all_local_branches_by_most_recent_activity() {
    let mut world = World::new();
    for branch_number in 1..=6 {
        world.commit(
            &format!("refs/heads/activity-{branch_number}"),
            "activity",
            20010100 + branch_number,
        );
    }

    assert_eq!(
        world.drive(|session| list_worktree_bases("/repo", session)).unwrap(),
        vec![
            WorktreeBase::LocalBranch("activity-6".to_string()),
            WorktreeBase::LocalBranch("activity-5".to_string()),
            WorktreeBase::LocalBranch("activity-4".to_string()),
            WorktreeBase::LocalBranch("activity-3".to_string()),
            WorktreeBase::LocalBranch("activity-2".to_string()),
            WorktreeBase::LocalBranch("activity-1".to_string()),
            WorktreeBase::LocalBranch("main".to_string()),
        ]
    );
}

#[test]
fn identifies_the_current_local_branch() {
    let mut world = World::new();
    world.head = Some("current-work".to_string());

    assert_eq!(
        world.drive(|session| current_worktree_base("/repo", session)).unwrap(),
        Some(WorktreeBase::LocalBranch("current-work".to_string()))
    );
}

#[test]
fn detached_head_has_no_current_local_branch() {
    let mut world = World::new();
    world.head = None;

    assert_eq!(
        world.drive(|session| current_worktree_base("/repo", session)).unwrap(),
        None
    );
}

#[test]
fn default_name_is_random_and_does_not_consume_stdin() {
    let mut world = World::new();
    world.answer = "stdin-name-is-ignored\n".to_string();

    assert_eq!(world.create(None), Ok(()));

    let name = world.out[0]
        .strip_prefix("created worktree '")
        .and_then(|rest| rest.strip_suffix('\''))
        .unwrap()
        .to_string();
    assert_eq!(name.len(), 10);
    assert!(!name.starts_with("agent-"));
    assert_ne!(name, "stdin-name-is-ignored");
    assert!(world.has(&format!("/repo/.worktrees/{name}")));
}

#[test]
fn writes_created_worktree_path_for_shell_integration() {
    let mut world = World::new();
    let invocation = Invocation {
        command: None,
        name: Some("feature-a".to_string()),
        created_path_file: Some("/tmp/created-worktree-path".to_string()),
    };

    assert_eq!(world.drive(|session| run(&invocation, session)), Ok(()));

    assert_eq!(
        world.files["/tmp/created-worktree-path"],
        "/repo/.worktrees/feature-a"
    );
}

#[test]
fn shell_init_prints_zsh_and_bash_wrapper() {
    let mut world = World::new();
    let invocation = Invocation {
        command: Some(Subcommand::ShellInit),
        name: None,
        created_path_file: None,
    };

    assert_eq!(world.drive(|session| run(&invocation, session)), Ok(()));

    assert_eq!(world.out, vec![SHELL_INIT]);
    for part in [
        "wt() {",
        "local wt_path_file worktree_path wt_result",
        "command worktree-manager --created-path-file \"$wt_path_file\" \"$@\"",
        "cd -- \"$worktree_path\"",
    ] {
        assert!(world.out[0].contains(part), "{part}");
    }
}

#[test]
fn fails_outside_git_work_tree() {
    let mut world = World::new();
    world.directory = "/elsewhere".to_string();

    assert_eq!(
        world.create(Some("feature-a")).unwrap_err(),
        "current directory is not inside a Git work tree"
    );
}

#[test]
fn missing_config_warns_and_skips_setup() {
    let mut world = World::new();

    assert_eq!(world.create(Some("feature-a")), Ok(()));

    assert_eq!(
        world.err,
        vec![format!(
            "warning: {CONFIG_FILE_NAME} not found; skipping setup commands"
        )]
    );
    assert!(world.has(PATH));
    assert_eq!(world.files.len(), 1);
    assert_eq!(world.files["/repo/.git/info/exclude"], "/.worktrees/\n");
}

#[test]
fn invalid_config_fails_before_creating_worktree() {
    let mut world = World::new();
    world.write_config("{");

    assert!(world.create(Some("feature-a")).unwrap_err().contains("failed to parse"));

    assert!(!world.has(PATH));
    assert!(!world.has("/repo/.git/info/exclude"));
}

#[test]
fn existing_branch_fails_before_creating_worktree() {
    let mut world = World::new();
    world.commit("refs/heads/feature-a", "initial", 20000101);

    assert_eq!(
        world.create(Some("feature-a")).unwrap_err(),
        "branch 'feature-a' already exists"
    );

    assert!(!world.has(PATH));
}

#[test]
fn existing_target_path_fails_before_creating_worktree() {
    let mut world = World::new();
    world.directories.insert(PATH.to_string());

    assert_eq!(
        world.create(Some("feature-a")).unwrap_err(),
        "target path already exists: /repo/.worktrees/feature-a"
    );
}

#[test]
fn missing_origin_main_fails_before_creating_worktree() {
    let mut world = World::new();
    world.references.remove("refs/remotes/origin/main");

    assert_eq!(
        world.create(Some("feature-a")).unwrap_err(),
        "base branch 'origin/main' does not exist or has no commits"
    );

    assert!(!world.has(PATH));
}

#[test]
fn setup_command_failure_leaves_worktree_for_inspection() {
    let mut world = World::new();
    world.write_config(r#"{"setupCommands":["exit 7"]}"#);

    assert_eq!(
        world.create(Some("feature-a")).unwrap_err(),
        "setup command 'exit 7' failed with status exit status: 7"
    );

    assert!(world.has(PATH));
}

#[test]
fn clean_removes_a_worktree_and_deletes_its_merged_branch() {
    let mut world = World::new();
    assert_eq!(world.create(Some("feature-a")), Ok(()));
    world.out.clear();

    assert_eq!(world.clean(&["feature-a"], false), Ok(()));

    assert_eq!(
        world.out,
        vec!["removed worktree 'feature-a'", "deleted branch 'feature-a'"]
    );
    assert!(!world.has(PATH));
    assert!(world.worktrees.is_empty());
    assert!(!world.references.contains_key("refs/heads/feature-a"));
}

#[test]
fn clean_keeps_a_branch_that_still_holds_unmerged_commits() {
    let mut world = World::new();
    assert_eq!(world.create(Some("feature-a")), Ok(()));
    world.unmerged.insert("feature-a".to_string());
    world.out.clear();

    assert_eq!(world.clean(&["feature-a"], false), Ok(()));

    assert_eq!(
        world.out,
        vec![
            "removed worktree 'feature-a'",
            "kept branch 'feature-a': the branch 'feature-a' is not fully merged",
        ]
    );
    assert!(!world.has(PATH));
    assert!(world.references.contains_key("refs/heads/feature-a"));
}

#[test]
fn clean_refuses_a_worktree_with_uncommitted_changes() {
    let mut world = World::new();
    assert_eq!(world.create(Some("feature-a")), Ok(()));
    world.dirty.insert(PATH.to_string());
    world.err.clear();

    assert_eq!(
        world.clean(&["feature-a"], false).unwrap_err(),
        "failed to remove 1 of 1 worktree(s)"
    );

    assert_eq!(world.err.len(), 1);
    assert!(world.err[0].contains("contains modified or untracked files"));
    assert!(world.err[0].starts_with(&format!("error: failed to remove worktree {PATH}: '")));
    assert!(world.has(PATH));
    assert!(world.references.contains_key("refs/heads/feature-a"));
}

#[test]
fn forced_clean_removes_a_dirty_worktree_and_its_branch() {
    let mut world = World::new();
    assert_eq!(world.create(Some("feature-a")), Ok(()));
    world.unmerged.insert("feature-a".to_string());
    world.dirty.insert(PATH.to_string());

    assert_eq!(world.clean(&["feature-a"], true), Ok(()));

    assert!(world.out.contains(&"deleted branch 'feature-a'".to_string()));
    assert!(!world.has(PATH));
    assert!(!world.references.contains_key("refs/heads/feature-a"));
}

#[test]
fn clean_removes_background_setup_files() {
    let mut world = World::new();
    world.write_config(r#"{"backgroundSetupCommands":["echo setup"]}"#);
    assert_eq!(world.create(Some("feature-a")), Ok(()));
    world.work();
    assert_eq!(world.files[STATUS], "succeeded\n");
    assert_eq!(world.files[LOG], "setup\n");

    assert_eq!(world.clean(&["feature-a"], false), Ok(()));

    assert!(!world.has(STATUS));
    assert!(!world.has(LOG));
}

#[test]
fn clean_removes_every_named_worktree() {
    let mut world = World::new();
    for worktree_name in ["feature-a", "feature-b"] {
        assert_eq!(world.create(Some(worktree_name)), Ok(()));
    }

    assert_eq!(world.clean(&["feature-a", "feature-b"], false), Ok(()));

    assert!(!world.has(PATH));
    assert!(!world.has("/repo/.worktrees/feature-b"));
}

#[test]
fn clean_fails_for_an_unknown_worktree_without_removing_anything() {
    let mut world = World::new();
    assert_eq!(world.create(Some("feature-a")), Ok(()));

    assert_eq!(
        world.clean(&["missing", "feature-a"], false).unwrap_err(),
        "no worktree named 'missing' in .worktrees/"
    );
    assert_eq!(
        world.clean(&["feature-a", "missing"], false).unwrap_err(),
        "no worktree named 'missing' in .worktrees/"
    );

    assert!(world.has(PATH));
}

#[test]
fn clean_without_a_name_requires_a_terminal() {
    let mut world = World::new();
    assert_eq!(world.create(Some("feature-a")), Ok(()));

    assert_eq!(
        world.clean(&[], false).unwrap_err(),
        "cannot select worktrees without a terminal; pass --name to choose one"
    );

    assert!(world.has(PATH));
}

#[test]
fn clean_reports_when_there_is_nothing_to_clean() {
    let mut world = World::new();

    assert_eq!(world.clean(&[], false), Ok(()));

    assert_eq!(world.out, vec!["no worktrees to clean up"]);
}

#[test]
fn a_refusal_does_not_stop_the_rest_of_the_selection() {
    let mut world = World::new();
    for name in ["feature-a", "feature-b", "feature-c"] {
        assert_eq!(world.create(Some(name)), Ok(()));
    }
    world.dirty.insert("/repo/.worktrees/feature-b".to_string());

    assert_eq!(
        world
            .clean(&["feature-a", "feature-b", "feature-c"], false)
            .unwrap_err(),
        "failed to remove 1 of 3 worktree(s)"
    );

    assert!(!world.has("/repo/.worktrees/feature-a"));
    assert!(world.has("/repo/.worktrees/feature-b"));
    assert!(!world.has("/repo/.worktrees/feature-c"));
}

#[test]
fn worktrees_that_are_not_managed_are_never_removed() {
    let mut world = World::new();
    world.directories.insert("/elsewhere/manual".to_string());
    world
        .worktrees
        .push(("/elsewhere/manual".to_string(), Some("manual".to_string())));

    assert_eq!(world.clean(&[], true), Ok(()));
    assert_eq!(world.out, vec!["no worktrees to clean up"]);
    assert_eq!(
        world.clean(&["manual"], true).unwrap_err(),
        "no worktree named 'manual' in .worktrees/"
    );
    assert_eq!(world.create(Some("feature-a")), Ok(()));
    assert_eq!(
        world.clean(&["manual"], true).unwrap_err(),
        "no worktree named 'manual' in .worktrees/"
    );
    assert!(world.has("/elsewhere/manual"));
    assert!(!world.commands.iter().any(|command| command.starts_with("worktree remove")));
}

#[test]
fn worktrees_whose_directories_are_gone_are_pruned_first() {
    let mut world = World::new();
    assert_eq!(world.create(Some("feature-a")), Ok(()));
    world.directories.remove(PATH);

    assert_eq!(
        world.clean(&["feature-a"], false).unwrap_err(),
        "no worktree named 'feature-a' in .worktrees/"
    );
    assert_eq!(world.clean(&[], false), Ok(()));

    assert_eq!(world.out.last().unwrap(), "no worktrees to clean up");
}

#[test]
fn a_clean_up_from_within_a_worktree_works_on_the_main_work_tree() {
    let mut world = World::new();
    assert_eq!(world.create(Some("feature-a")), Ok(()));
    world.directory = PATH.to_string();
    world.terminal = true;
    world.choice = Some(0);

    assert_eq!(world.clean(&[], false), Ok(()));

    assert!(world.out.contains(&"Remove 1 worktree(s)? [y/N] ".to_string()));
    assert!(!world.has(PATH));
}

#[test]
fn what_is_not_confirmed_is_not_removed() {
    let mut world = World::new();
    assert_eq!(world.create(Some("feature-a")), Ok(()));
    world.terminal = true;
    world.answer = "no\n".to_string();

    assert_eq!(world.clean(&["feature-a"], false), Ok(()));
    assert_eq!(world.clean(&[], false), Ok(()));

    assert!(world.has(PATH));
}

#[test]
fn a_selected_base_is_used_and_a_cancelled_selection_creates_nothing() {
    let mut world = World::new();
    world.commit("refs/heads/recent-work", "recent", 20000102);
    world.terminal = true;

    assert_eq!(world.create(Some("feature-a")), Ok(()));
    assert!(!world.has(PATH));

    world.choice = Some(0);
    assert_eq!(world.create(Some("  feature-a ")), Ok(()));
    assert_eq!(world.references["refs/heads/feature-a"].0, "recent");
    assert!(world.commands.contains(
        &"worktree add -b feature-a /repo/.worktrees/feature-a refs/heads/recent-work".to_string()
    ));
}

#[test]
fn setup_from_a_linked_worktree_is_told_the_primary_checkout() {
    let mut world = World::new();
    assert_eq!(world.create(Some("feature-a")), Ok(()));
    world.out.clear();
    world.directory = PATH.to_string();
    let command = format!(r#"printf %s \"${{{SETUP_REPOSITORY_ROOT_ENV}}}\" > root.txt"#);
    world.files.insert(
        format!("{PATH}/{CONFIG_FILE_NAME}"),
        format!(r#"{{"setupCommands":["{command}"],"backgroundSetupCommands":["{command}"]}}"#),
    );

    assert_eq!(world.create(Some("b")), Ok(()));

    let created = format!("{PATH}/.worktrees/b");
    let status = "/repo/.git/worktrees/feature-a/worktree-manager/setup/b.status";
    assert_eq!(world.out[1], format!("path: {created}"));
    assert_eq!(world.files[&format!("{created}/root.txt")], "/repo");
    assert_eq!(world.files[status], "pending\n");
    assert_eq!(world.workers[0][2], "/repo");

    world.work();

    assert_eq!(world.files[status], "succeeded\n");
    assert_eq!(world.files[&format!("{created}/root.txt")], "/repo/repo");
}

#[test]
fn the_primary_checkout_is_the_checkout_that_holds_the_git_directory() {
    let ended = |code: i32, said: &str| Reply::Ended(output(code, &format!("{said}\n"), ""));
    let primary = |root: &str, replies: &[Reply]| {
        primary_worktree_root(root, &mut Session::new(replies)).unwrap()
    };
    // A linked work tree.
    assert_eq!(
        primary(
            "/repo/.worktrees/a",
            &[ended(0, "/repo/.git"), ended(0, "/repo/.git/worktrees/a"), ended(0, "/repo")]
        ),
        "/repo"
    );
    // The main work tree.
    assert_eq!(primary("/repo", &[ended(0, "/repo/.git")]), "/repo");
    // A submodule.
    assert_eq!(primary("/super/sub", &[ended(0, "/super/.git/modules/sub")]), "/super/sub");
    // A Git directory that is kept apart from its work tree.
    assert_eq!(primary("/work", &[ended(0, "/store/.git"), ended(0, "/store/.git")]), "/work");
    // A work tree of a bare repository.
    assert_eq!(
        primary(
            "/proj/main",
            &[ended(0, "/proj/.git"), ended(0, "/proj/.git/worktrees/main"), ended(128, "")]
        ),
        "/proj/main"
    );
    // A Git that cannot tell.
    assert_eq!(primary("/work", &[ended(129, "")]), "/work");
    assert_eq!(primary("/work", &[Reply::Failed("no".to_string())]), "/work");
    assert_eq!(primary("/work", &[ended(0, "/store/.git"), ended(129, "")]), "/work");
    assert_eq!(
        primary(
            "/work",
            &[ended(0, "/store/.git"), ended(0, "/store/.git/worktrees/w"), ended(0, "/other")]
        ),
        "/work"
    );

    assert_eq!(git_directory_holder("/repo/.git"), Some("/repo"));
    assert_eq!(git_directory_holder("/srv/repo.git"), None);
    assert_eq!(git_directory_holder("/"), None);
}

#[test]
fn a_repository_without_commits_fails_before_creating_worktree() {
    let mut world = World::new();
    world.unborn = true;
    world.references.clear();

    assert_eq!(
        world.create(Some("feature-a")).unwrap_err(),
        "repository has no commits yet; create an initial commit first"
    );

    assert!(!world.has(PATH));
    assert!(world.files.is_empty());
}

#[test]
fn a_head_without_commits_does_not_fail_in_a_repository_that_has_some() {
    let mut world = World::new();
    world.unborn = true;

    assert_eq!(world.create(Some("feature-a")), Ok(()));

    assert!(world.has(PATH));
}

#[test]
fn an_unknown_name_fails_where_there_is_nothing_to_clean() {
    let mut world = World::new();

    assert_eq!(
        world.clean(&["missing"], false).unwrap_err(),
        "no worktree named 'missing' in .worktrees/"
    );

    assert!(world.out.is_empty());
}

#[test]
fn a_path_that_git_tells_is_read_from_the_work_tree_unless_it_stands_alone() {
    let told = |directory: &str, said: &str| {
        git_path(
            directory,
            "info/exclude",
            &mut Session::new(&[Reply::Ended(output(0, said, ""))]),
        )
        .unwrap()
    };
    assert_eq!(told("/repo", ".git/info/exclude\n"), "/repo/.git/info/exclude");
    assert_eq!(told("/repo", "/git/info/exclude\n"), "/git/info/exclude");
    assert_eq!(told("/repo", "C:/git/info/exclude\n"), "/repo/C:/git/info/exclude");
    assert_eq!(
        told("C:/repo", "C:/repo/.git/info/exclude\n"),
        "C:/repo/.git/info/exclude"
    );
    assert_eq!(told("C:/repo", ".git/info/exclude\n"), "C:/repo/.git/info/exclude");
}

#[test]
fn paths_are_equal_by_their_components() {
    let worktree = |path: &str| ManagedWorktree {
        name: "a".to_string(),
        path: path.to_string(),
        branch: None,
    };
    assert_eq!(worktree("/repo/.worktrees/a"), worktree("/repo//.worktrees/./a/"));
    assert_ne!(worktree("/repo/.worktrees/a"), worktree("/repo/.worktrees/b"));

    let setup = |log: &str, command: &str| BackgroundSetup {
        repository_root: "/repo/".to_string(),
        worktree_path: PATH.to_string(),
        commands: owned(&[command]),
        log_path: log.to_string(),
        status_path: STATUS.to_string(),
    };
    assert_eq!(setup("/a/b", "echo 1"), setup("/a//b", "echo 1"));
    assert_ne!(setup("/a/b", "echo 1"), setup("/a/c", "echo 1"));
    assert_ne!(setup("/a/b", "echo 1"), setup("/a/b", "echo 2"));

    let outcome = |path: &str, log: Option<&str>| WorktreeOutcome {
        name: "a".to_string(),
        path: path.to_string(),
        config_missing: false,
        setup_commands_run: 1,
        background_setup: log.map(|log| setup(log, "echo 1")),
    };
    assert_eq!(outcome("/r/a", Some("/a/b")), outcome("/r/./a", Some("/a/b/")));
    assert_ne!(outcome("/r/a", Some("/a/b")), outcome("/r/a", Some("/a/c")));
    assert_ne!(outcome("/r/a", Some("/a/b")), outcome("/r/a", None));
}

#[test]
fn only_a_generated_name_is_a_made_up_name() {
    for (name, fits) in [
        ("abcdef0123", true),
        ("abcdef012", false),
        ("abcdef01234", false),
        ("Abcdef0123", false),
        ("abcdef-123", false),
        ("", false),
    ] {
        let reply = Reply::Text(name.to_string());
        assert_eq!(reply_fits(&Request::RandomName, &reply), fits, "{name}");
    }
    assert!(!reply_fits(&Request::RandomName, &Reply::Done));
}

#[test]
fn an_invalid_name_fails_before_git_is_asked() {
    let mut world = World::new();

    assert_eq!(
        world.create(Some("feature/a")).unwrap_err(),
        "worktree name may only contain ASCII letters, numbers, '-', '_', and '.'"
    );

    assert!(world.commands.is_empty());
}

#[test]
fn the_exclude_file_is_left_alone_where_it_has_the_pattern() {
    let mut world = World::new();
    world.files.insert(
        "/repo/.git/info/exclude".to_string(),
        "# local\n  /.worktrees/  \n*.tmp".to_string(),
    );
    assert_eq!(world.create(Some("feature-a")), Ok(()));
    assert_eq!(
        world.files["/repo/.git/info/exclude"],
        "# local\n  /.worktrees/  \n*.tmp"
    );
}

#[test]
fn the_exclude_file_gets_the_pattern_on_a_line_of_its_own_once() {
    let mut world = World::new();
    world
        .files
        .insert("/repo/.git/info/exclude".to_string(), "*.tmp".to_string());
    assert_eq!(world.create(Some("feature-a")), Ok(()));
    assert_eq!(world.create(Some("feature-b")), Ok(()));
    assert_eq!(
        world.files["/repo/.git/info/exclude"],
        "*.tmp\n/.worktrees/\n"
    );
}

#[test]
fn setup_commands_stop_at_the_first_failure_and_no_worker_starts() {
    let mut world = World::new();
    world.write_config(
        r#"{
            "setupCommands": ["echo 1 > one", "exit 3", "echo 2 > two"],
            "backgroundSetupCommands": ["echo 3"]
        }"#,
    );

    assert_eq!(
        world.create(Some("feature-a")).unwrap_err(),
        "setup command 'exit 3' failed with status exit status: 3"
    );

    assert!(world.has(&format!("{PATH}/one")));
    assert!(!world.has(&format!("{PATH}/two")));
    assert!(world.workers.is_empty());
    assert!(!world.has(STATUS));
}

/// How a request to Git starts.
fn git(words: &[&str]) -> String {
    let words: Vec<String> = words.iter().map(|word| format!("{word:?}")).collect();
    format!("Git {{ directory: \"/repo\", arguments: [{}", words.join(", "))
}

#[test]
fn every_fault_of_a_creation_has_its_message() {
    let faults = [
        ("CurrentDirectory".to_string(), "failed to determine cwd: no".to_string()),
        (
            git(&["rev-parse", "--show-toplevel"]),
            "current directory is not inside a Git work tree".to_string(),
        ),
        (
            git(&["rev-parse", "--is-bare-repository"]),
            "failed to start git rev-parse --is-bare-repository: no".to_string(),
        ),
        (
            git(&["rev-parse", "--verify", "HEAD"]),
            "repository has no commits yet; create an initial commit first".to_string(),
        ),
        (
            git(&["rev-parse", "--verify", "--quiet"]),
            "failed to start git rev-parse --verify --quiet refs/remotes/origin/main^{commit}: no"
                .to_string(),
        ),
        (git(&["show-ref"]), "failed to check branch 'feature-a': no".to_string()),
        (
            "Read { path: \"/repo/agent".to_string(),
            format!("failed to read /repo/{CONFIG_FILE_NAME}: no"),
        ),
        (
            "Read { path: \"/repo/.git".to_string(),
            "failed to read Git exclude file /repo/.git/info/exclude: no".to_string(),
        ),
        (
            "Write { path: \"/repo/.git/info".to_string(),
            "failed to update Git exclude file /repo/.git/info/exclude: no".to_string(),
        ),
        ("GitAttached".to_string(), "failed to start git worktree add: no".to_string()),
        ("Shell".to_string(), "failed to start setup command 'echo 1': no".to_string()),
        (
            "CurrentExecutable".to_string(),
            "failed to locate current executable: no".to_string(),
        ),
        (
            "CreateDirectory".to_string(),
            "failed to create background setup directory /repo/.git/worktree-manager/setup: no"
                .to_string(),
        ),
        (
            "Write { path: \"/repo/.git/worktree-manager".to_string(),
            format!("failed to update background setup status {STATUS}: no"),
        ),
        ("CreateLog".to_string(), format!("failed to create background setup log {LOG}: no")),
        (
            "ShareLog".to_string(),
            format!("failed to open background setup log {LOG} for stdout: no"),
        ),
        (
            "StartWorker".to_string(),
            "failed to start background setup worker /bin/worktree-manager: no".to_string(),
        ),
    ];
    for (start, message) in faults {
        let mut world = World::new();
        world.write_config(r#"{"setupCommands":["echo 1"],"backgroundSetupCommands":["echo 2"]}"#);
        world.fault = Some(start.clone());
        assert_eq!(world.create(Some("feature-a")), Err(message.clone()));
        if start == "StartWorker" {
            assert_eq!(world.files[STATUS], format!("failed\n{message}\n"));
        }
    }
}

#[test]
fn every_fault_of_a_clean_up_has_its_message() {
    let faults = [
        (git(&["worktree", "prune"]), "failed to start git worktree prune: no"),
        (git(&["worktree", "list"]), "failed to start git worktree list --porcelain: no"),
        (
            git(&["rev-parse", "--path-format=absolute"]),
            "failed to start git rev-parse --path-format=absolute --git-common-dir: no",
        ),
    ];
    for (start, message) in faults {
        let mut world = World::new();
        assert_eq!(world.create(Some("feature-a")), Ok(()));
        world.fault = Some(start);
        assert_eq!(world.clean(&["feature-a"], false), Err(message.to_string()));
        assert!(world.has(PATH));
    }
    let reports = [
        (
            git(&["worktree", "remove"]),
            "error: failed to start git worktree remove: no".to_string(),
        ),
        (git(&["branch"]), "error: failed to start git branch -d feature-a: no".to_string()),
        (
            git(&["rev-parse", "--git-path"]),
            "error: failed to start git rev-parse --git-path worktree-manager/setup: no"
                .to_string(),
        ),
        (
            format!("Remove {{ path: {STATUS:?}"),
            format!("error: failed to remove background setup file {STATUS}: no"),
        ),
    ];
    for (start, report) in reports {
        let mut world = World::new();
        assert_eq!(world.create(Some("feature-a")), Ok(()));
        world.err.clear();
        world.fault = Some(start);
        assert_eq!(
            world.clean(&["feature-a"], false).unwrap_err(),
            "failed to remove 1 of 1 worktree(s)"
        );
        assert_eq!(world.err, vec![report]);
    }
}

#[test]
fn a_clean_up_fails_outside_a_work_tree() {
    let mut world = World::new();
    world.directory = "/elsewhere".to_string();
    assert_eq!(
        world.clean(&[], false).unwrap_err(),
        "current directory is not inside a Git work tree"
    );
}

#[test]
fn unexpected_ends_of_git_are_failures() {
    let ended = |code: i32, stdout: &str, stderr: &str| Reply::Ended(output(code, stdout, stderr));
    let first = |replies: Vec<Reply>| {
        create_and_setup_worktree("/repo", "feature-a", &mut Session::new(&replies))
            .map(|outcome| outcome.path)
    };
    assert_eq!(
        first(vec![ended(0, "/repo\n", ""), ended(0, "true\n", "")]),
        Err(Halt::Failed(
            "current directory is inside a bare Git repository".to_string()
        ))
    );
    assert_eq!(
        first(vec![ended(0, "/repo\n", ""), ended(128, "", " fatal: odd \n")]),
        Err(Halt::Failed(
            "git rev-parse --is-bare-repository failed: fatal: odd".to_string()
        ))
    );
    assert_eq!(
        first(vec![
            ended(0, "/repo\n", ""),
            ended(0, "false\n", ""),
            ended(128, "", "fatal: Needed a single revision\n"),
            ended(0, "", ""),
        ]),
        Err(Halt::Failed(
            "repository has no commits yet; create an initial commit first".to_string()
        ))
    );
    assert_eq!(
        first(vec![
            ended(0, "/repo\n", ""),
            ended(0, "false\n", ""),
            ended(0, "", ""),
            ended(0, "", ""),
            ended(128, "", " fatal: odd\n"),
        ]),
        Err(Halt::Failed(
            "failed to check branch 'feature-a': fatal: odd".to_string()
        ))
    );
    assert_eq!(
        first(vec![
            ended(0, "/repo\n", ""),
            ended(0, "false\n", ""),
            ended(0, "", ""),
            ended(0, "", ""),
            ended(1, "", ""),
            Reply::Answer(false),
            Reply::Absent,
            ended(0, "/repo/.git\n", ""),
            ended(0, "/absolute/exclude\n", ""),
            Reply::Text("/.worktrees/\n".to_string()),
            ended(255, "", ""),
        ]),
        Err(Halt::Failed(
            "git worktree add failed with status exit status: 255".to_string()
        ))
    );
    assert_eq!(
        current_worktree_base(
            "/repo",
            &mut Session::new(&[ended(128, "", "fatal: odd\n")])
        ),
        Err(Halt::Failed(
            "failed to determine the checked-out branch: fatal: odd".to_string()
        ))
    );
    assert_eq!(
        main_worktree_root(
            "/repo",
            &mut Session::new(&[
                ended(0, "/repo\n", ""),
                ended(0, "false\n", ""),
                ended(0, "/\n", ""),
            ])
        ),
        Err(Halt::Failed(
            "Git directory '/' has no parent work tree".to_string()
        ))
    );
}

#[test]
fn a_request_waits_for_the_reply_that_fits_it() {
    let asked = |replies: &[Reply]| prune_worktree_metadata("/repo", &mut Session::new(replies));
    let request = || Request::Git {
        directory: "/repo".to_string(),
        arguments: owned(&["worktree", "prune"]),
    };
    assert_eq!(asked(&[]), Err(Halt::Pending(request())));
    assert_eq!(asked(&[Reply::Done]), Err(Halt::Pending(request())));
    assert_eq!(asked(&[Reply::Ended(output(0, "", ""))]), Ok(()));
    assert_eq!(asked(&[Reply::Ended(output(0, "", "")), Reply::Done]), Ok(()));
}

#[test]
fn what_was_decided_is_decided_again() {
    let mut world = World::new();
    world.write_config(r#"{"setupCommands":["echo 1"]}"#);
    let invocation = Invocation {
        command: None,
        name: Some("feature-a".to_string()),
        created_path_file: None,
    };
    let mut replies = Vec::new();
    let mut requests = Vec::new();
    while let Err(Halt::Pending(request)) = run(&invocation, &mut Session::new(&replies)) {
        replies.push(world.perform(&request));
        requests.push(request);
    }
    for count in 0..requests.len() {
        match run(&invocation, &mut Session::new(&replies[..count])) {
            Err(Halt::Pending(request)) => assert_eq!(request, requests[count]),
            other => panic!("unexpected {other:?}"),
        }
    }
    replies.push(Reply::Done);
    assert_eq!(run(&invocation, &mut Session::new(&replies)), Ok(()));
}

#[test]
fn a_removal_tells_what_became_of_the_branch() {
    let mut world = World::new();
    assert_eq!(world.create(Some("feature-a")), Ok(()));
    let worktrees = world
        .drive(|session| list_managed_worktrees("/repo", session))
        .unwrap();
    assert_eq!(
        worktrees,
        vec![ManagedWorktree {
            name: "feature-a".to_string(),
            path: PATH.to_string(),
            branch: Some("feature-a".to_string()),
        }]
    );
    assert_eq!(
        world.drive(|session| remove_worktree("/repo", &worktrees[0], false, session)),
        Ok(BranchOutcome::Deleted("feature-a".to_string()))
    );
    let detached = ManagedWorktree {
        name: "b".to_string(),
        path: "/repo/.worktrees/b".to_string(),
        branch: None,
    };
    assert_eq!(
        world.drive(|session| remove_worktree("/repo", &detached, true, session)),
        Ok(BranchOutcome::NoBranch)
    );
    assert!(world
        .commands
        .contains(&"worktree remove --force /repo/.worktrees/b".to_string()));
}

#[test]
fn a_worker_needs_a_directory_for_its_log() {
    let setup = BackgroundSetup {
        repository_root: "/repo".to_string(),
        worktree_path: PATH.to_string(),
        commands: owned(&["echo 1"]),
        log_path: "/".to_string(),
        status_path: STATUS.to_string(),
    };
    assert_eq!(
        start_background_setup("/bin/worktree-manager", &setup, &mut Session::new(&[])),
        Err(Halt::Failed(
            "background setup log path has no parent directory".to_string()
        ))
    );
}

#[test]
fn the_worker_counts_its_commands() {
    let mut world = World::new();
    let commands = owned(&["echo 1 > one", "echo 2 > two"]);
    assert_eq!(
        world.drive(|session| {
            run_background_setup_worker("/repo", PATH, STATUS, &commands, session)
        }),
        Ok(2)
    );
    assert_eq!(world.files[STATUS], "succeeded\n");
}

#[test]
fn a_command_runs_through_the_shell_of_the_platform() {
    assert_eq!(
        shell_command(false, "echo 1"),
        ("sh".to_string(), owned(&["-c", "echo 1"]))
    );
    assert_eq!(
        shell_command(true, "echo 1"),
        ("cmd".to_string(), owned(&["/C", "echo 1"]))
    );
}
