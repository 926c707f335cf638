use repo_workspace::index::DirEntry;
use repo_workspace::reference::{Config, ParseError};
use repo_workspace::resolver::{get_workspace_or_branch, get_workspace_with_branch, Resolution};

const TOP: &str = "/home/u/code/github.com";

fn tree_entry(names: &[&str], is_dir: bool) -> DirEntry {
    let mut path = TOP.to_string();
    for name in names {
        path.push('/');
        path.push_str(name);
    }
    DirEntry { path, names: names.iter().map(|n| n.to_string()).collect(), is_dir }
}

fn tree(dirs: &[&[&str]]) -> Vec<DirEntry> {
    dirs.iter().map(|names| tree_entry(names, true)).collect()
}

fn cfg() -> Config {
    Config::new("/home/u")
}

fn existing(r: Result<Resolution, ParseError>) -> String {
    match r {
        Ok(Resolution::Existing { path }) => path,
        _ => panic!("expected an existing directory"),
    }
}

#[test]
fn an_existing_repository_is_found_in_its_directory() {
    let walk = tree(&[
        &["octocat", "Spoon-Knife"],
        &["octocat", "Hello-World"],
        &["octocat", "Hello-World", "main"],
    ]);
    match get_workspace_or_branch(&cfg(), "octocat/Hello-World", &walk) {
        Ok(Resolution::Repository { info, path }) => {
            assert_eq!(path, "/home/u/code/github.com/octocat/Hello-World");
            assert_eq!(info.owner, "octocat");
            assert_eq!(info.name, "Hello-World");
            assert_eq!(info.domain, "github.com");
            assert_eq!(info.url, "git@github.com:octocat/Hello-World.git");
        }
        _ => panic!("expected the repository to be there"),
    }
}

#[test]
fn the_repository_is_looked_for_below_its_owner() {
    let walk = tree(&[&["rust-lang", "Hello-World"], &["octocat", "Spoon-Knife"]]);
    match get_workspace_or_branch(&cfg(), "octocat/Hello-World", &walk) {
        Ok(Resolution::Clone { info, check_owner }) => {
            assert!(!check_owner);
            assert_eq!(info.owner, "octocat");
            assert_eq!(info.name, "Hello-World");
            assert_eq!(info.url, "git@github.com:octocat/Hello-World.git");
            assert_eq!(info.domain, "github.com");
        }
        _ => panic!("expected a clone"),
    }
}

#[test]
fn an_unknown_owner_is_checked_before_the_clone() {
    match get_workspace_or_branch(&cfg(), "octocat/Hello-World", &Vec::new()) {
        Ok(Resolution::Clone { info, check_owner }) => {
            assert!(check_owner);
            assert_eq!(info.owner, "octocat");
            assert_eq!(info.name, "Hello-World");
        }
        _ => panic!("expected a clone"),
    }
}

#[test]
fn a_repository_name_and_a_branch_that_is_there() {
    let walk = tree(&[
        &["octocat", "Hello-World"],
        &["octocat", "Hello-World", "main"],
        &["octocat", "Hello-World", "feature-x"],
    ]);
    let r = get_workspace_or_branch(&cfg(), "Hello-World/feature-x", &walk);
    assert_eq!(existing(r), "/home/u/code/github.com/octocat/Hello-World/feature-x");
}

#[test]
fn a_repository_name_and_a_branch_that_is_missing() {
    let walk = tree(&[
        &["rust-lang", "Spoon-Knife"],
        &["rust-lang", "Spoon-Knife", "feature-x"],
        &["octocat", "Hello-World"],
        &["octocat", "Hello-World", "main"],
    ]);
    match get_workspace_or_branch(&cfg(), "Hello-World/feature-x", &walk) {
        Ok(Resolution::Checkout { info, branch }) => {
            assert_eq!(info.owner, "octocat");
            assert_eq!(info.name, "Hello-World");
            assert_eq!(info.url, "git@github.com:octocat/Hello-World.git");
            assert_eq!(branch, "feature-x");
        }
        _ => panic!("expected a checkout"),
    }
}

#[test]
fn the_first_repository_of_a_name_wins() {
    let walk = tree(&[
        &["rust-lang", "Hello-World"],
        &["octocat", "Hello-World"],
        &["octocat", "Hello-World", "feature-x"],
    ]);
    match get_workspace_or_branch(&cfg(), "Hello-World/feature-x", &walk) {
        Ok(Resolution::Checkout { info, .. }) => assert_eq!(info.owner, "rust-lang"),
        _ => panic!("expected a checkout"),
    }
}

#[test]
fn an_owner_directory_with_a_strange_name_is_invalid() {
    let walk = tree(&[&["my org", "Hello-World"]]);
    assert_eq!(
        get_workspace_or_branch(&cfg(), "Hello-World/feature-x", &walk).err(),
        Some(ParseError::InvalidReference)
    );
}

#[test]
fn files_are_no_part_of_the_index() {
    let walk = vec![tree_entry(&["octocat", "Hello-World"], false)];
    match get_workspace_or_branch(&cfg(), "octocat/Hello-World", &walk) {
        Ok(Resolution::Clone { check_owner, .. }) => assert!(check_owner),
        _ => panic!("expected a clone"),
    }
}

#[test]
fn two_segments_are_needed() {
    for input in ["octocat", "a/b/c", "a b/c"] {
        assert_eq!(
            get_workspace_or_branch(&cfg(), input, &Vec::new()).err(),
            Some(ParseError::InvalidReference)
        );
    }
}

#[test]
fn an_existing_branch_is_returned() {
    let walk = tree(&[
        &["octocat", "Hello-World"],
        &["octocat", "Hello-World", "main"],
        &["octocat", "Hello-World", "feature-x"],
    ]);
    let r = get_workspace_with_branch(&cfg(), "octocat/Hello-World/feature-x", &walk);
    assert_eq!(existing(r), "/home/u/code/github.com/octocat/Hello-World/feature-x");
}

#[test]
fn a_branch_of_another_repository_does_not_count() {
    let walk = tree(&[
        &["octocat", "Spoon-Knife"],
        &["octocat", "Spoon-Knife", "feature-x"],
        &["octocat", "Hello-World"],
        &["octocat", "Hello-World", "main"],
    ]);
    match get_workspace_with_branch(&cfg(), "octocat/Hello-World/feature-x", &walk) {
        Ok(Resolution::Checkout { info, branch }) => {
            assert_eq!(info.owner, "octocat");
            assert_eq!(info.name, "Hello-World");
            assert_eq!(branch, "feature-x");
        }
        _ => panic!("expected a checkout"),
    }
}

#[test]
fn a_missing_repository_is_cloned_before_the_checkout() {
    for walk in [Vec::new(), tree(&[&["octocat", "Spoon-Knife"]]), tree(&[&["rust-lang", "Hello-World"]])] {
        match get_workspace_with_branch(&cfg(), "octocat/Hello-World/feature-x", &walk) {
            Ok(Resolution::CloneAndCheckout { info, branch }) => {
                assert_eq!(info.url, "git@github.com:octocat/Hello-World.git");
                assert_eq!(branch, "feature-x");
            }
            _ => panic!("expected a clone and a checkout"),
        }
    }
}

#[test]
fn three_segments_are_needed() {
    for input in ["octocat/Hello-World", "a/b/c/d", "a/b/c d"] {
        assert_eq!(
            get_workspace_with_branch(&cfg(), input, &Vec::new()).err(),
            Some(ParseError::InvalidReference)
        );
    }
}
