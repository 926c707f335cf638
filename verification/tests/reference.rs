use repo_workspace::reference::{classify, Config, ParseError, Reference, RepoInfo};

fn config() -> Config {
    Config::new("/home/u")
}

#[test]
fn config_of_a_home_directory() {
    let cfg = config();
    assert_eq!(cfg.root_dir, "/home/u/code");
    assert_eq!(cfg.default_domain, "github.com");
    assert_eq!(cfg.get_default_top_level_dir(), "/home/u/code/github.com");
}

#[test]
fn config_of_a_home_directory_with_a_closing_slash() {
    let cfg = Config::new("/home/u/");
    assert_eq!(cfg.root_dir, "/home/u/code");
    assert_eq!(Config::new("").root_dir, "code");
}

#[test]
fn git_remote_address_is_parsed() {
    let info = RepoInfo::from_git_url("git@github.com:octocat/Hello-World.git").unwrap();
    assert_eq!(info.owner, "octocat");
    assert_eq!(info.name, "Hello-World");
    assert_eq!(info.domain, "github.com");
    assert_eq!(info.url, "git@github.com:octocat/Hello-World.git");
}

#[test]
fn git_remote_address_is_classified_as_remote() {
    match classify("git@github.com:octocat/Hello-World.git") {
        Ok(Reference::RemoteUrl { domain, owner, name }) => {
            assert_eq!(domain, "github.com");
            assert_eq!(owner, "octocat");
            assert_eq!(name, "Hello-World");
        }
        _ => panic!("expected a remote address"),
    }
}

#[test]
fn gitea_address_is_parsed() {
    let info = RepoInfo::from_git_url("gitea@git.example.org:team/tool.git").unwrap();
    assert_eq!(info.domain, "git.example.org");
    assert_eq!(info.owner, "team");
    assert_eq!(info.name, "tool");
}

#[test]
fn git_suffix_may_be_missing() {
    let info = RepoInfo::from_git_url("git@github.com:octocat/Hello-World").unwrap();
    assert_eq!(info.owner, "octocat");
    assert_eq!(info.name, "Hello-World");
    assert_eq!(info.url, "git@github.com:octocat/Hello-World");
}

#[test]
fn only_one_git_suffix_is_taken_off() {
    let info = RepoInfo::from_git_url("git@github.com:o/n.git.git").unwrap();
    assert_eq!(info.name, "n.git");
}

#[test]
fn git_remote_address_with_a_bad_path_is_invalid() {
    for input in [
        "git@github.com:octocat",
        "git@github.com:a/b/c.git",
        "git@github.com:octocat/.git",
        "git@github.com:octo cat/x.git",
        "git@github.com:",
    ] {
        assert_eq!(RepoInfo::from_git_url(input).err(), Some(ParseError::InvalidReference));
    }
    assert!(matches!(classify("git@github.com:a/b/c.git"), Err(ParseError::InvalidReference)));
}

#[test]
fn what_is_no_git_remote_address_is_invalid_as_one() {
    for input in ["octocat/Hello-World", "git@:a/b", "got@github.com:a/b", "", "git@github.com"] {
        assert_eq!(RepoInfo::from_git_url(input).err(), Some(ParseError::InvalidReference));
    }
}

#[test]
fn unparseable_input_is_rejected() {
    assert!(matches!(classify("not a repo ref"), Err(ParseError::UnsupportedSearch)));
    assert!(matches!(classify(""), Err(ParseError::UnsupportedSearch)));
    assert!(matches!(classify("octocat"), Err(ParseError::UnsupportedSearch)));
    assert!(matches!(classify("git@github.com"), Err(ParseError::UnsupportedSearch)));
}

#[test]
fn a_reference_with_wrong_segments_is_invalid() {
    for input in ["a/b/c/d", "a b/c", "a/b!", "/b", "a/", "a//b", "a/b/", "/", "a/b\n"] {
        assert!(matches!(classify(input), Err(ParseError::InvalidReference)), "{}", input);
    }
    assert!(matches!(classify("m\u{fc}nchen/repo"), Err(ParseError::InvalidReference)));
    assert!(matches!(classify("x:/y"), Err(ParseError::InvalidReference)));
}

#[test]
fn addresses_with_a_scheme_are_unsupported() {
    assert!(matches!(
        classify("https://github.com/octocat/Hello-World"),
        Err(ParseError::UnsupportedUrl)
    ));
    assert!(matches!(classify("x://"), Err(ParseError::UnsupportedUrl)));
}

#[test]
fn two_segments_are_owner_and_name() {
    match classify("octocat/Hello-World") {
        Ok(Reference::TwoSegment { owner, name }) => {
            assert_eq!(owner, "octocat");
            assert_eq!(name, "Hello-World");
        }
        _ => panic!("expected two segments"),
    }
}

#[test]
fn three_segments_are_owner_name_and_branch() {
    match classify("octocat/Hello-World/feature-x") {
        Ok(Reference::ThreeSegment { owner, name, branch }) => {
            assert_eq!(owner, "octocat");
            assert_eq!(name, "Hello-World");
            assert_eq!(branch, "feature-x");
        }
        _ => panic!("expected three segments"),
    }
}

#[test]
fn segments_hold_letters_digits_and_three_marks_only() {
    assert!(matches!(classify("a_b.c-9/Z"), Ok(Reference::TwoSegment { .. })));
    assert!(matches!(classify("0/-/."), Ok(Reference::ThreeSegment { .. })));
    for input in ["a b/c", "a/b!", "a:b/c", "a/b~", "m\u{fc}nchen/repo"] {
        assert!(classify(input).is_err(), "{}", input);
    }
}

#[test]
fn repository_on_the_default_host() {
    let cfg = config();
    let info = RepoInfo::from_owner_name(&cfg, "octocat/Hello-World").unwrap();
    assert_eq!(info.url, "git@github.com:octocat/Hello-World.git");
    assert_eq!(info.domain, "github.com");
    assert_eq!(info.owner, "octocat");
    assert_eq!(info.name, "Hello-World");
    assert_eq!(info.get_repo_path(&cfg), "/home/u/code/github.com/octocat/Hello-World");
}

#[test]
fn owner_and_name_need_two_segments() {
    let cfg = config();
    for input in ["octocat", "a/b/c", "a /b", ""] {
        assert_eq!(
            RepoInfo::from_owner_name(&cfg, input).err(),
            Some(ParseError::InvalidReference)
        );
    }
}

#[test]
fn repository_and_branch_on_the_default_host() {
    let cfg = config();
    let (info, branch) =
        RepoInfo::from_owner_name_branch(&cfg, "octocat/Hello-World/feature-x").unwrap();
    assert_eq!(info.url, "git@github.com:octocat/Hello-World.git");
    assert_eq!(info.owner, "octocat");
    assert_eq!(info.name, "Hello-World");
    assert_eq!(branch, "feature-x");
    assert_eq!(
        RepoInfo::from_owner_name_branch(&cfg, "octocat/Hello-World").err(),
        Some(ParseError::InvalidReference)
    );
}

#[test]
fn path_of_a_repository_of_another_host() {
    let cfg = config();
    let info = RepoInfo::from_git_url("git@git.example.org:team/tool.git").unwrap();
    assert_eq!(info.get_repo_path(&cfg), "/home/u/code/git.example.org/team/tool");
}
