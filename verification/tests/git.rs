use repo_workspace::git::{
    check_git_installed, check_github_user_exists, get_default_branch_with_git,
    git_checkout_worktree, git_clone_command, git_get_remote_branches_command,
    git_get_silently_added_files, git_get_untracked_files, git_pull_command,
    git_remote_branches_command, git_remote_show_command, git_silent_add_file,
    git_tagged_files_command, git_untracked_files_command, github_user_url, read_line,
    read_listing, relative, Listing,
};

fn line(kind: Listing, text: &str) -> Option<String> {
    let chars: Vec<char> = text.chars().collect();
    read_line(kind, &chars)
}

#[test]
fn arguments_of_the_git_commands() {
    assert_eq!(git_clone_command("git@h:o/n.git", "/w/o/n/main"), vec!["clone", "git@h:o/n.git", "/w/o/n/main"]);
    assert_eq!(git_pull_command(), vec!["pull"]);
    assert_eq!(check_git_installed(), vec!["-v"]);
    assert_eq!(git_remote_show_command("git@h:o/n.git"), vec!["remote", "show", "git@h:o/n.git"]);
    assert_eq!(git_remote_branches_command(), vec!["branch", "-r"]);
    assert_eq!(git_untracked_files_command(), vec!["ls-files", "-o"]);
    assert_eq!(git_tagged_files_command(), vec!["ls-files", "-v"]);
}

#[test]
fn a_worktree_with_a_new_branch() {
    assert_eq!(
        git_checkout_worktree("feature-x", true),
        vec!["worktree", "add", "-b", "feature-x", "../feature-x"]
    );
}

#[test]
fn a_worktree_that_tracks_a_remote_branch() {
    assert_eq!(
        git_checkout_worktree("feature-x", false),
        vec!["worktree", "add", "../feature-x", "feature-x"]
    );
}

#[test]
fn a_file_is_added_silently_by_two_commands() {
    assert_eq!(
        git_silent_add_file("/w/o/n/b/.env"),
        vec![
            vec!["add", "--intent-to-add", "/w/o/n/b/.env"],
            vec!["update-index", "--skip-worktree", "--assume-unchanged", "/w/o/n/b/.env"],
        ]
    );
}

#[test]
fn remote_branches_are_those_of_origin_without_the_head() {
    let output = "  origin/HEAD -> origin/main\n  origin/main\n  origin/feature-x\n  upstream/other\n";
    assert_eq!(git_get_remote_branches_command(output), vec!["main", "feature-x"]);
    assert!(git_get_remote_branches_command("").is_empty());
    assert_eq!(git_get_remote_branches_command("origin/a/b\r\norigin/"), vec!["a/b", ""]);
}

#[test]
fn untracked_files_are_the_lines_that_are_not_blank() {
    let output = ".env\nnotes/todo.txt\n\n  spaced name \r\n";
    assert_eq!(git_get_untracked_files(output), vec![".env", "notes/todo.txt", "spaced name"]);
    assert!(git_get_untracked_files("").is_empty());
    assert!(git_get_untracked_files("\n \n").is_empty());
    assert_eq!(git_get_untracked_files("last"), vec!["last"]);
}

#[test]
fn silently_added_files_carry_the_tag_h() {
    let output = "H src/main.rs\nh config/local.toml\nS skipped\nh .env\nh \nh\n";
    assert_eq!(git_get_silently_added_files(output), vec!["config/local.toml", ".env"]);
    assert!(git_get_silently_added_files("H a\nH b\n").is_empty());
}

#[test]
fn files_are_named_below_the_directory_of_the_listing() {
    assert_eq!(git_get_untracked_files("/etc/passwd\nnotes.txt\n/\n"), vec!["notes.txt"]);
    assert_eq!(git_get_silently_added_files("h /etc/passwd\nh a/b\n"), vec!["a/b"]);
    assert!(relative(&['a', '/', 'b']));
    assert!(!relative(&['/', 'a']));
    assert!(!relative(&[]));
}

#[test]
fn lines_of_the_listings() {
    assert_eq!(line(Listing::Untracked, " a "), Some("a".to_string()));
    assert_eq!(line(Listing::Untracked, "   "), None);
    assert_eq!(line(Listing::Tagged, "h x"), Some("x".to_string()));
    assert_eq!(line(Listing::Tagged, "h "), None);
    assert_eq!(line(Listing::Tagged, "H x"), None);
    assert_eq!(line(Listing::RemoteBranches, "origin/main"), Some("main".to_string()));
    assert_eq!(line(Listing::RemoteBranches, "origin/HEAD -> origin/main"), None);
    assert_eq!(line(Listing::RemoteBranches, "origin/HEAD"), Some("HEAD".to_string()));
    assert_eq!(line(Listing::RemoteBranches, "main"), None);
    assert_eq!(read_listing(Listing::Untracked, "a\nb"), vec!["a", "b"]);
}

#[test]
fn the_default_branch_follows_the_last_blank_of_its_line() {
    let output = "* remote origin\n  Fetch URL: git@github.com:octocat/Hello-World.git\n  HEAD branch: main\n  Remote branch:\n    main tracked\n";
    assert_eq!(get_default_branch_with_git(output), Some("main".to_string()));
    assert_eq!(get_default_branch_with_git("  HEAD branch: trunk\r\n"), Some("trunk".to_string()));
    assert_eq!(
        get_default_branch_with_git("HEAD branch: a\nHEAD branch: b\n"),
        Some("a".to_string())
    );
}

#[test]
fn without_a_line_of_the_head_branch_there_is_no_default_branch() {
    assert_eq!(get_default_branch_with_git(""), None);
    assert_eq!(get_default_branch_with_git("fatal: could not read from remote\n"), None);
    assert_eq!(get_default_branch_with_git("  HEAD branch: \n"), None);
    assert_eq!(get_default_branch_with_git("  HEAD branch: main \n"), None);
}

#[test]
fn the_user_exists_where_the_status_is_a_success() {
    assert!(check_github_user_exists(200));
    assert!(check_github_user_exists(204));
    assert!(check_github_user_exists(299));
    assert!(!check_github_user_exists(199));
    assert!(!check_github_user_exists(300));
    assert!(!check_github_user_exists(404));
    assert!(!check_github_user_exists(0));
}

#[test]
fn the_address_of_a_user() {
    assert_eq!(github_user_url("octocat"), "https://api.github.com/users/octocat");
}
