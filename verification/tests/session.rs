use repo_workspace::index::DirEntry;
use repo_workspace::reference::Config;
use repo_workspace::materialize::{checkout_branch, clone_repo, lists, plan_transfers};
use repo_workspace::session::{
    locate, resolve, start, step, Action, CheckoutPhase, ClonePhase, Event, Failure, Phase, State,
};

const REPO: &str = "/home/u/code/github.com/octocat/Hello-World";
const REMOTE: &str = "git@github.com:octocat/Hello-World.git";
const SHOW: &str = "* remote origin\n  HEAD branch: main\n";

fn cfg() -> Config {
    Config::new("/home/u")
}

fn dir(names: &[&str]) -> DirEntry {
    let mut path = "/home/u/code/github.com".to_string();
    for name in names {
        path.push('/');
        path.push_str(name);
    }
    DirEntry { path, names: names.iter().map(|n| n.to_string()).collect(), is_dir: true }
}

fn output(text: &str) -> Event {
    Event::Output { stdout: text.to_string(), success: true }
}

fn failed_output(text: &str) -> Event {
    Event::Output { stdout: text.to_string(), success: false }
}

fn probed(exists: bool) -> Event {
    Event::Probed { exists }
}

fn expect_probe(action: &Action, expected: &str) {
    match action {
        Action::Probe { path } => assert_eq!(path, expected),
        _ => panic!("expected a probe of {}", expected),
    }
}

fn expect_git(action: &Action, dir: Option<&str>, expected: &[&str]) {
    match action {
        Action::Git { cwd, args } => {
            assert_eq!(cwd.as_deref(), dir);
            assert_eq!(args, expected);
        }
        _ => panic!("expected git {:?}", expected),
    }
}

fn expect_finish(action: &Action, expected: &str) {
    match action {
        Action::Finish { path } => assert_eq!(path, expected),
        _ => panic!("expected the result {}", expected),
    }
}

fn expect_fail(action: &Action, expected: Failure) {
    match action {
        Action::Fail { error } => assert_eq!(*error, expected),
        _ => panic!("expected the failure {:?}", expected),
    }
}

fn run(state: State, events: Vec<Event>) -> (State, Action) {
    let mut state = state;
    let mut last = None;
    for event in events {
        let (next, action) = step(state, event);
        state = next;
        last = Some(action);
    }
    (state, last.unwrap())
}

fn scanned(input: &str, walk: Vec<DirEntry>) -> (State, Action) {
    let (state, action) = start(cfg(), input);
    match action {
        Action::Scan { root, min_depth, max_depth } => {
            assert_eq!(root, "/home/u/code/github.com");
            assert_eq!((min_depth, max_depth), (2, 3));
        }
        _ => panic!("expected a walk"),
    }
    step(state, Event::Scanned { walk })
}

#[test]
fn a_new_repository_of_a_known_user_is_cloned() {
    let (state, action) = scanned("octocat/Hello-World", Vec::new());
    match &action {
        Action::LookUp { url } => assert_eq!(url, "https://api.github.com/users/octocat"),
        _ => panic!("expected a look at the user"),
    }
    let (state, action) = step(state, Event::Status { code: 200 });
    expect_probe(&action, REPO);
    let (state, action) = step(state, probed(false));
    expect_git(&action, None, &["-v"]);
    let (state, action) = step(state, output("git version 2.43.0\n"));
    match &action {
        Action::CreateDirs { path } => assert_eq!(path, REPO),
        _ => panic!("expected the directories to be made"),
    }
    let (state, action) = step(state, Event::Done);
    expect_git(&action, None, &["remote", "show", REMOTE]);
    let (state, action) = step(state, output(SHOW));
    expect_git(&action, None, &["clone", REMOTE, "/home/u/code/github.com/octocat/Hello-World/main"]);
    let (state, action) = step(state, output(""));
    expect_probe(&action, "/home/u/code/github.com/octocat/Hello-World/main/.envrc");
    let (state, action) = step(state, probed(false));
    expect_finish(&action, "/home/u/code/github.com/octocat/Hello-World/main");
    assert!(state.is_over());
    assert_eq!(state.path, "/home/u/code/github.com/octocat/Hello-World/main");
}

#[test]
fn an_unknown_user_ends_the_session() {
    let (state, _) = scanned("octocat/Hello-World", Vec::new());
    let (state, action) = step(state, Event::Status { code: 404 });
    expect_fail(&action, Failure::RemoteLookupFailure);
    assert!(state.is_over());
    let (state, _) = scanned("octocat/Hello-World", Vec::new());
    let (_, action) = step(state, Event::Failed);
    expect_fail(&action, Failure::RemoteLookupFailure);
}

#[test]
fn a_new_branch_is_checked_out_beside_the_default_branch() {
    let main = "/home/u/code/github.com/octocat/Hello-World/main";
    let branch = "/home/u/code/github.com/octocat/Hello-World/feature-x";
    let walk = vec![dir(&["octocat", "Hello-World"]), dir(&["octocat", "Hello-World", "main"])];
    let (state, action) = scanned("octocat/Hello-World/feature-x", walk);
    expect_probe(&action, REPO);
    let (state, action) = step(state, probed(true));
    expect_probe(&action, branch);
    let (state, action) = step(state, probed(false));
    expect_git(&action, None, &["-v"]);
    let (state, action) = step(state, output("git version 2.43.0\n"));
    expect_git(&action, None, &["remote", "show", REMOTE]);
    let (state, action) = step(state, output(SHOW));
    expect_probe(&action, main);
    let (state, action) = step(state, probed(true));
    expect_git(&action, Some(main), &["pull"]);
    let (state, action) = step(state, output("Already up to date.\n"));
    expect_git(&action, Some(main), &["branch", "-r"]);
    let (state, action) = step(state, output("  origin/HEAD -> origin/main\n  origin/main\n"));
    expect_git(&action, Some(main), &["worktree", "add", "-b", "feature-x", "../feature-x"]);
    let (state, action) = step(state, output(""));
    expect_probe(&action, "/home/u/code/github.com/octocat/Hello-World/main/node_modules");
    let (state, action) = step(state, probed(true));
    match &action {
        Action::CopyTree { from, to } => {
            assert_eq!(from, "/home/u/code/github.com/octocat/Hello-World/main/node_modules");
            assert_eq!(to, "/home/u/code/github.com/octocat/Hello-World/feature-x/node_modules");
        }
        _ => panic!("expected the modules to be copied"),
    }
    let (state, action) = step(state, Event::Failed);
    expect_git(&action, Some(main), &["ls-files", "-o"]);
    let (state, action) = step(state, output(".env\nnotes/todo.txt\n"));
    match &action {
        Action::CopyFiles { dir, transfers } => {
            assert_eq!(dir, branch);
            assert_eq!(transfers.len(), 2);
            assert_eq!(transfers[0].from, "/home/u/code/github.com/octocat/Hello-World/main/.env");
            assert_eq!(transfers[0].to, "/home/u/code/github.com/octocat/Hello-World/feature-x/.env");
            assert_eq!(
                transfers[1].from,
                "/home/u/code/github.com/octocat/Hello-World/main/notes/todo.txt"
            );
            assert_eq!(
                transfers[1].to,
                "/home/u/code/github.com/octocat/Hello-World/feature-x/notes/todo.txt"
            );
            assert!(transfers[0].marks.is_empty() && transfers[1].marks.is_empty());
        }
        _ => panic!("expected the untracked files to be copied"),
    }
    let (state, action) = step(state, Event::Done);
    expect_git(&action, Some(main), &["ls-files", "-v"]);
    let (state, action) = step(state, output("H README.md\nh config/local.toml\n"));
    match &action {
        Action::CopyFiles { dir, transfers } => {
            assert_eq!(dir, branch);
            assert_eq!(transfers.len(), 1);
            let to = "/home/u/code/github.com/octocat/Hello-World/feature-x/config/local.toml";
            assert_eq!(
                transfers[0].from,
                "/home/u/code/github.com/octocat/Hello-World/main/config/local.toml"
            );
            assert_eq!(transfers[0].to, to);
            assert_eq!(
                transfers[0].marks,
                vec![
                    vec!["add", "--intent-to-add", to],
                    vec!["update-index", "--skip-worktree", "--assume-unchanged", to],
                ]
            );
        }
        _ => panic!("expected the silently added files to be copied"),
    }
    let (state, action) = step(state, Event::Done);
    expect_probe(&action, "/home/u/code/github.com/octocat/Hello-World/feature-x/.envrc");
    let (state, action) = step(state, probed(true));
    match &action {
        Action::Direnv { dir } => assert_eq!(dir, branch),
        _ => panic!("expected the environment to be allowed"),
    }
    let (state, action) = step(state, Event::Failed);
    expect_finish(&action, branch);
    assert!(state.is_over());
}

fn at_the_remote_branches() -> State {
    let walk = vec![dir(&["octocat", "Hello-World"])];
    let (state, _) = scanned("octocat/Hello-World/feature-x", walk);
    let (state, _) = run(
        state,
        vec![probed(true), probed(false), output(""), output(SHOW), probed(true), Event::Done],
    );
    assert_eq!(state.phase, Phase::Checkout(CheckoutPhase::RemoteBranches));
    state
}

#[test]
fn a_branch_of_the_remote_is_tracked() {
    let main = "/home/u/code/github.com/octocat/Hello-World/main";
    let (_, action) = step(at_the_remote_branches(), output("  origin/main\n  origin/feature-x\n"));
    expect_git(&action, Some(main), &["worktree", "add", "../feature-x", "feature-x"]);
}

#[test]
fn a_branch_that_the_remote_lacks_is_made() {
    let main = "/home/u/code/github.com/octocat/Hello-World/main";
    let (_, action) = step(at_the_remote_branches(), output("  origin/main\n  origin/feature-xy\n"));
    expect_git(&action, Some(main), &["worktree", "add", "-b", "feature-x", "../feature-x"]);
    let (_, action) = step(at_the_remote_branches(), output("  upstream/feature-x\n"));
    expect_git(&action, Some(main), &["worktree", "add", "-b", "feature-x", "../feature-x"]);
}

#[test]
fn a_clone_never_fills_a_directory_that_is_there() {
    let (state, action) = start(cfg(), REMOTE);
    expect_probe(&action, REPO);
    let (state, action) = step(state, probed(true));
    expect_fail(&action, Failure::AlreadyExists);
    assert!(state.is_over());
    assert_eq!(state.error, Some(Failure::AlreadyExists));
}

#[test]
fn the_second_clone_of_a_repository_fails() {
    let events = vec![probed(false), output(""), Event::Done, output(SHOW), output(""), probed(false)];
    let (state, _) = start(cfg(), REMOTE);
    let (_, action) = run(state, events);
    expect_finish(&action, "/home/u/code/github.com/octocat/Hello-World/main");
    let (state, _) = start(cfg(), REMOTE);
    let (_, action) = step(state, probed(true));
    expect_fail(&action, Failure::AlreadyExists);
}

#[test]
fn a_git_remote_address_is_cloned_without_a_walk() {
    let (state, action) = start(cfg(), "git@git.example.org:team/tool.git");
    expect_probe(&action, "/home/u/code/git.example.org/team/tool");
    assert_eq!(state.info.url, "git@git.example.org:team/tool.git");
    let (_, action) =
        run(state, vec![probed(false), output(""), Event::Done, output("  HEAD branch: trunk\n")]);
    expect_git(
        &action,
        None,
        &["clone", "git@git.example.org:team/tool.git", "/home/u/code/git.example.org/team/tool/trunk"],
    );
}

#[test]
fn the_environment_of_a_clone_is_allowed_where_it_has_one() {
    let (state, _) = start(cfg(), REMOTE);
    let (state, action) = run(
        state,
        vec![probed(false), output(""), Event::Done, output(SHOW), output(""), probed(true)],
    );
    match &action {
        Action::Direnv { dir } => assert_eq!(dir, "/home/u/code/github.com/octocat/Hello-World/main"),
        _ => panic!("expected the environment to be allowed"),
    }
    let (_, action) = step(state, Event::Failed);
    expect_finish(&action, "/home/u/code/github.com/octocat/Hello-World/main");
}

#[test]
fn input_that_names_nothing_ends_the_session_at_once() {
    for input in ["not a repo ref", "https://github.com/octocat/Hello-World", "git@github.com:x.git", ""] {
        let (state, action) = start(cfg(), input);
        expect_fail(&action, Failure::InvalidInput);
        assert!(state.is_over());
    }
}

#[test]
fn an_existing_repository_resolves_to_its_default_branch() {
    let walk = vec![dir(&["octocat", "Hello-World"]), dir(&["octocat", "Hello-World", "main"])];
    let (state, action) = scanned("octocat/Hello-World", walk);
    expect_git(&action, None, &["remote", "show", REMOTE]);
    assert_eq!(state.phase, Phase::Locate);
    let (state, action) = step(state, output(SHOW));
    expect_finish(&action, "/home/u/code/github.com/octocat/Hello-World/main");
    assert!(state.is_over());
    assert_eq!(state.path, "/home/u/code/github.com/octocat/Hello-World/main");
}

#[test]
fn the_default_branch_is_looked_for_below_the_directory_that_the_walk_gave() {
    let cfg = Config { root_dir: "/w".to_string(), default_domain: "github.com".to_string() };
    let entry = |path: &str, names: &[&str]| DirEntry {
        path: path.to_string(),
        names: names.iter().map(|n| n.to_string()).collect(),
        is_dir: true,
    };
    let walk = vec![
        entry("/w/github.com/octocat/Hello-World", &["octocat", "Hello-World"]),
        entry("/w/github.com/octocat/Hello-World/main", &["octocat", "Hello-World", "main"]),
    ];
    let (state, _) = start(cfg, "octocat/Hello-World");
    let (state, action) = step(state, Event::Scanned { walk });
    expect_git(&action, None, &["remote", "show", REMOTE]);
    let (_, action) = step(state, output(SHOW));
    expect_finish(&action, "/w/github.com/octocat/Hello-World/main");
}

#[test]
fn an_existing_repository_without_a_default_branch_is_a_failed_lookup() {
    let (state, _) = scanned("octocat/Hello-World", vec![dir(&["octocat", "Hello-World"])]);
    let (state, action) = step(state, output("fatal: no such remote\n"));
    expect_fail(&action, Failure::RemoteLookupFailure);
    assert!(state.is_over());
    let (state, _) = scanned("octocat/Hello-World", vec![dir(&["octocat", "Hello-World"])]);
    let (_, action) = step(state, Event::Failed);
    expect_fail(&action, Failure::RemoteLookupFailure);
    let (state, _) = scanned("octocat/Hello-World", vec![dir(&["octocat", "Hello-World"])]);
    let (_, action) = locate(state, probed(true));
    expect_fail(&action, Failure::RemoteLookupFailure);
}

#[test]
fn an_existing_branch_ends_the_session_after_the_walk() {
    let walk = vec![
        dir(&["octocat", "Hello-World"]),
        dir(&["octocat", "Hello-World", "main"]),
        dir(&["octocat", "Hello-World", "feature-x"]),
    ];
    let (state, action) = scanned("octocat/Hello-World/feature-x", walk);
    expect_finish(&action, "/home/u/code/github.com/octocat/Hello-World/feature-x");
    assert!(state.is_over());
}

#[test]
fn a_walk_that_fails_ends_the_session() {
    let (state, _) = start(cfg(), "octocat/Hello-World");
    let (_, action) = step(state, Event::Failed);
    expect_fail(&action, Failure::WorkspaceCorruption);
    let (state, _) = start(cfg(), "octocat/Hello-World/feature-x");
    let (_, action) = step(state, probed(true));
    expect_fail(&action, Failure::WorkspaceCorruption);
}

#[test]
fn a_missing_repository_is_cloned_and_then_checked_out() {
    let (state, action) = scanned("octocat/Hello-World/feature-x", Vec::new());
    expect_probe(&action, REPO);
    let (state, action) = run(
        state,
        vec![probed(false), output(""), Event::Done, output(SHOW), output(""), probed(false)],
    );
    expect_probe(&action, REPO);
    assert_eq!(state.phase, Phase::Checkout(CheckoutPhase::Repository));
    let (_, action) = step(state, probed(true));
    expect_probe(&action, "/home/u/code/github.com/octocat/Hello-World/feature-x");
}

#[test]
fn a_checkout_clones_a_repository_that_is_gone() {
    let (state, _) = scanned("octocat/Hello-World/feature-x", vec![dir(&["octocat", "Hello-World"])]);
    let (state, action) = step(state, probed(false));
    expect_probe(&action, REPO);
    assert_eq!(state.phase, Phase::Clone(ClonePhase::Target));
    let (state, action) = run(
        state,
        vec![probed(false), output(""), Event::Done, output(SHOW), output(""), probed(false)],
    );
    expect_probe(&action, "/home/u/code/github.com/octocat/Hello-World/feature-x");
    assert_eq!(state.phase, Phase::Checkout(CheckoutPhase::Target));
}

#[test]
fn a_branch_directory_that_is_there_is_the_result() {
    let (state, _) = scanned("octocat/Hello-World/feature-x", vec![dir(&["octocat", "Hello-World"])]);
    let (_, action) = run(state, vec![probed(true), probed(true)]);
    expect_finish(&action, "/home/u/code/github.com/octocat/Hello-World/feature-x");
}

#[test]
fn a_missing_default_branch_directory_is_a_corrupt_workspace() {
    let (state, _) = scanned("octocat/Hello-World/feature-x", vec![dir(&["octocat", "Hello-World"])]);
    let (_, action) = run(state, vec![probed(true), probed(false), output(""), output(SHOW), probed(false)]);
    expect_fail(&action, Failure::WorkspaceCorruption);
}

#[test]
fn git_that_cannot_be_run_is_a_missing_environment() {
    let (state, _) = start(cfg(), REMOTE);
    let (_, action) = run(state, vec![probed(false), Event::Failed]);
    expect_fail(&action, Failure::EnvironmentMissing);
    let (state, _) = scanned("octocat/Hello-World/feature-x", vec![dir(&["octocat", "Hello-World"])]);
    let (_, action) = run(state, vec![probed(true), probed(false), Event::Failed]);
    expect_fail(&action, Failure::EnvironmentMissing);
}

#[test]
fn a_remote_without_a_default_branch_is_a_failed_lookup() {
    let (state, _) = start(cfg(), REMOTE);
    let (_, action) = run(state, vec![probed(false), output(""), Event::Done, output("fatal\n")]);
    expect_fail(&action, Failure::RemoteLookupFailure);
    let (state, _) = start(cfg(), REMOTE);
    let (_, action) =
        run(state, vec![probed(false), output(""), Event::Done, output(SHOW), Event::Failed]);
    expect_fail(&action, Failure::RemoteLookupFailure);
}

#[test]
fn a_clone_that_reports_no_success_ends_the_session() {
    let (state, _) = start(cfg(), REMOTE);
    let (_, action) = run(
        state,
        vec![probed(false), output(""), Event::Done, output(SHOW), failed_output("fatal\n")],
    );
    expect_fail(&action, Failure::RemoteLookupFailure);
}

#[test]
fn the_other_git_commands_need_not_report_success() {
    let main = "/home/u/code/github.com/octocat/Hello-World/main";
    let (state, _) = scanned("octocat/Hello-World/feature-x", vec![dir(&["octocat", "Hello-World"])]);
    let (_, action) = run(
        state,
        vec![
            probed(true),
            probed(false),
            failed_output(""),
            failed_output(SHOW),
            probed(true),
            failed_output(""),
            failed_output(""),
        ],
    );
    expect_git(&action, Some(main), &["worktree", "add", "-b", "feature-x", "../feature-x"]);
}

#[test]
fn directories_that_cannot_be_made_end_the_clone() {
    let (state, _) = start(cfg(), REMOTE);
    let (_, action) = run(state, vec![probed(false), output(""), Event::Failed]);
    expect_fail(&action, Failure::WorkspaceCorruption);
}

#[test]
fn a_session_that_is_over_repeats_its_verdict() {
    let (state, _) = start(cfg(), "not a repo ref");
    let (state, action) = step(state, Event::Done);
    expect_fail(&action, Failure::InvalidInput);
    let (_, action) = step(state, probed(true));
    expect_fail(&action, Failure::InvalidInput);
    let (state, _) = scanned("octocat/Hello-World", vec![dir(&["octocat", "Hello-World"])]);
    let (state, action) = step(state, output(SHOW));
    expect_finish(&action, "/home/u/code/github.com/octocat/Hello-World/main");
    let (_, action) = step(state, Event::Done);
    expect_finish(&action, "/home/u/code/github.com/octocat/Hello-World/main");
}

#[test]
fn paths_of_a_session() {
    let (state, _) = scanned("octocat/Hello-World/feature-x", vec![dir(&["octocat", "Hello-World"])]);
    let (state, _) = run(state, vec![probed(true), probed(false), output(""), output(SHOW)]);
    assert_eq!(state.repo_path(), REPO);
    assert_eq!(state.main_path(), "/home/u/code/github.com/octocat/Hello-World/main");
    assert_eq!(state.branch_path(), "/home/u/code/github.com/octocat/Hello-World/feature-x");
    assert!(!state.is_over());
}

#[test]
fn transfers_keep_the_place_of_a_file() {
    let files = vec!["a.txt".to_string(), "d/b.txt".to_string()];
    let plain = plan_transfers("/m", "/b", &files, false);
    assert_eq!(plain.len(), 2);
    assert_eq!((plain[1].from.as_str(), plain[1].to.as_str()), ("/m/d/b.txt", "/b/d/b.txt"));
    assert!(plain[1].marks.is_empty());
    let marked = plan_transfers("/m", "/b", &files, true);
    assert_eq!(marked[0].marks[0], vec!["add", "--intent-to-add", "/b/a.txt"]);
    assert_eq!(
        marked[0].marks[1],
        vec!["update-index", "--skip-worktree", "--assume-unchanged", "/b/a.txt"]
    );
    assert!(plan_transfers("/m", "/b", &Vec::new(), true).is_empty());
}

#[test]
fn a_name_is_listed_where_it_is_one_of_the_names() {
    let names = vec!["main".to_string(), "feature-x".to_string()];
    assert!(lists(&names, "feature-x"));
    assert!(!lists(&names, "feature"));
    assert!(!lists(&Vec::new(), "main"));
}

#[test]
fn the_parts_of_a_session_can_be_taken_alone() {
    let (state, _) = start(cfg(), "octocat/Hello-World");
    assert_eq!(state.phase, Phase::Walk { with_branch: false });
    let (state, action) = resolve(state, false, Event::Scanned { walk: Vec::new() });
    assert!(matches!(action, Action::LookUp { .. }));
    assert_eq!(state.phase, Phase::Clone(ClonePhase::Owner));
    let (state, action) = clone_repo(state, ClonePhase::Owner, Event::Status { code: 200 });
    expect_probe(&action, REPO);
    let (state, action) = clone_repo(state, ClonePhase::Target, probed(true));
    expect_fail(&action, Failure::AlreadyExists);
    let (_, action) = checkout_branch(state, CheckoutPhase::Allow, Event::Done);
    expect_finish(&action, "/home/u/code/github.com/octocat/Hello-World/");
}

#[test]
fn a_session_is_over_after_thirty_two_answers_at_most() {
    for input in ["octocat/Hello-World", "octocat/Hello-World/feature-x", REMOTE] {
        for exists in [false, true] {
            let (mut state, _) = start(cfg(), input);
            let mut answers = 0;
            while !state.is_over() {
                let event = match state.phase {
                    Phase::Walk { .. } => Event::Scanned { walk: Vec::new() },
                    Phase::Clone(ClonePhase::Owner) => Event::Status { code: 200 },
                    Phase::Clone(ClonePhase::Target) => probed(false),
                    Phase::Clone(ClonePhase::Directories) => Event::Done,
                    Phase::Clone(ClonePhase::Environment) => probed(exists),
                    Phase::Checkout(CheckoutPhase::Repository) => probed(exists),
                    Phase::Checkout(CheckoutPhase::Target) => probed(false),
                    Phase::Checkout(CheckoutPhase::MainDirectory) => probed(true),
                    Phase::Checkout(CheckoutPhase::Modules) => probed(exists),
                    Phase::Checkout(CheckoutPhase::Environment) => probed(exists),
                    _ => output(SHOW),
                };
                state = step(state, event).0;
                answers += 1;
                assert!(answers <= 32);
            }
            assert_eq!(state.error, None);
        }
    }
}
