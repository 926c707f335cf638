//! What a reference asks for, given what the workspace holds: a directory that is
//! there, a clone, or the checkout of a branch.

use crate::index::{
    collect_directories, directories_within, dirs_under, entries, find_dirs_under,
    find_matching_branch_dirs, find_matching_owner_dirs, find_matching_repo_dirs,
    matching_branch_dirs, matching_owner_dirs, matching_repo_dirs, DirEntry, DirEntryView,
};
use crate::reference::{
    three_segments, two_segments, Config, ConfigView, ParseError, RepoInfo, RepoInfoView,
};
use vstd::prelude::*;
use vstd::string::StringExecFns;

verus! {

/// The least and the greatest depth of the directories that the index holds: the
/// repositories lie at depth 2 below the host's directory, their branches at depth 3.
pub const REPO_DEPTH: usize = 2;

pub const MAX_DEPTH: usize = 3;

/// What has to be done for a reference, given what the workspace holds.
pub enum Resolution {
    /// The directory of the branch is there: it is the result, and nothing is to
    /// be done.
    Existing { path: String },
    /// The repository is there, in the directory `path`: the result is the
    /// directory of its default branch below it, which the remote has to name.
    Repository { info: RepoInfo, path: String },
    /// The repository is to be cloned; with `check_owner`, only once its owner is
    /// known to exist.
    Clone { info: RepoInfo, check_owner: bool },
    /// The repository is to be cloned and the branch to be checked out beside it.
    CloneAndCheckout { info: RepoInfo, branch: String },
    /// The branch is to be checked out beside the default branch.
    Checkout { info: RepoInfo, branch: String },
}

pub enum ResolutionView {
    Existing { path: Seq<char> },
    Repository { info: RepoInfoView, path: Seq<char> },
    Clone { info: RepoInfoView, check_owner: bool },
    CloneAndCheckout { info: RepoInfoView, branch: Seq<char> },
    Checkout { info: RepoInfoView, branch: Seq<char> },
}

impl View for Resolution {
    type V = ResolutionView;

    open spec fn view(&self) -> ResolutionView {
        match self {
            Resolution::Existing { path } => ResolutionView::Existing { path: path@ },
            Resolution::Repository { info, path } => ResolutionView::Repository {
                info: info@,
                path: path@,
            },
            Resolution::Clone { info, check_owner } => ResolutionView::Clone {
                info: info@,
                check_owner: *check_owner,
            },
            Resolution::CloneAndCheckout { info, branch } => ResolutionView::CloneAndCheckout {
                info: info@,
                branch: branch@,
            },
            Resolution::Checkout { info, branch } => ResolutionView::Checkout {
                info: info@,
                branch: branch@,
            },
        }
    }
}

/// The views of a resolution or of the error in its place.
pub open spec fn outcome(r: Result<Resolution, ParseError>) -> Result<
    ResolutionView,
    ParseError,
> {
    match r {
        Ok(x) => Ok(x@),
        Err(e) => Err(e),
    }
}

/// The directories that the index holds, out of a walk of the host's directory.
pub open spec fn index_of(walk: Seq<DirEntryView>) -> Seq<DirEntryView> {
    directories_within(walk, REPO_DEPTH as nat, MAX_DEPTH as nat)
}

/// `owner/name` as it is written.
pub open spec fn owner_and_name(d: DirEntryView) -> Seq<char> {
    d.names[0] + "/"@ + d.names[1]
}

/// What `first/second` asks for, where `dirs` is the index.
///
/// Where `first` owns repositories, `second` is one of them: there, and then
/// the directory of its default branch is asked for, or to be cloned. Where it
/// owns none, `first` may be the name of a repository of any
/// owner, and `second` is then a branch of the first such repository: there, or
/// to be checked out. Else the repository `first/second` is to be cloned, once
/// the owner is known to exist.
pub open spec fn resolve_two(
    cfg: ConfigView,
    dirs: Seq<DirEntryView>,
    first: Seq<char>,
    second: Seq<char>,
) -> Result<ResolutionView, ParseError> {
    let owned = matching_owner_dirs(dirs, first);
    if owned.len() == 0 {
        let repos = matching_repo_dirs(dirs, first);
        if repos.len() == 0 {
            Ok(
                ResolutionView::Clone {
                    info: RepoInfoView::on_default_host(cfg, first, second),
                    check_owner: true,
                },
            )
        } else {
            let branches = matching_branch_dirs(dirs_under(dirs, repos[0]), second);
            if branches.len() == 0 {
                match two_segments(owner_and_name(repos[0])) {
                    Some((owner, name)) => Ok(
                        ResolutionView::Checkout {
                            info: RepoInfoView::on_default_host(cfg, owner, name),
                            branch: second,
                        },
                    ),
                    None => Err(ParseError::InvalidReference),
                }
            } else {
                Ok(ResolutionView::Existing { path: branches[0].path })
            }
        }
    } else {
        let repos = matching_repo_dirs(owned, second);
        if repos.len() == 0 {
            Ok(
                ResolutionView::Clone {
                    info: RepoInfoView::on_default_host(cfg, first, second),
                    check_owner: false,
                },
            )
        } else {
            Ok(
                ResolutionView::Repository {
                    info: RepoInfoView::on_default_host(cfg, first, second),
                    path: repos[0].path,
                },
            )
        }
    }
}

/// What `owner/name/branch` asks for, where `dirs` is the index.
pub open spec fn resolve_three(
    cfg: ConfigView,
    dirs: Seq<DirEntryView>,
    owner: Seq<char>,
    name: Seq<char>,
    branch: Seq<char>,
) -> ResolutionView {
    let info = RepoInfoView::on_default_host(cfg, owner, name);
    let owned = matching_owner_dirs(dirs, owner);
    if owned.len() == 0 {
        ResolutionView::CloneAndCheckout { info, branch }
    } else {
        let repos = matching_repo_dirs(owned, name);
        if repos.len() == 0 {
            ResolutionView::CloneAndCheckout { info, branch }
        } else {
            let branches = matching_branch_dirs(dirs_under(dirs, repos[0]), branch);
            if branches.len() == 0 {
                ResolutionView::Checkout { info, branch }
            } else {
                ResolutionView::Existing { path: branches[0].path }
            }
        }
    }
}

/// What the two-segment reference `search` asks for, where `walk` is a walk of the
/// host's directory.
pub open spec fn workspace_or_branch(
    cfg: ConfigView,
    search: Seq<char>,
    walk: Seq<DirEntryView>,
) -> Result<ResolutionView, ParseError> {
    match two_segments(search) {
        Some((first, second)) => resolve_two(cfg, index_of(walk), first, second),
        None => Err(ParseError::InvalidReference),
    }
}

/// What the three-segment reference `search` asks for, where `walk` is a walk of
/// the host's directory.
pub open spec fn workspace_with_branch(
    cfg: ConfigView,
    search: Seq<char>,
    walk: Seq<DirEntryView>,
) -> Result<ResolutionView, ParseError> {
    match three_segments(search) {
        Some((owner, name, branch)) => Ok(
            resolve_three(cfg, index_of(walk), owner, name, branch),
        ),
        None => Err(ParseError::InvalidReference),
    }
}

/// Resolves the two-segment reference `search` against a walk of the host's
/// directory.
pub fn get_workspace_or_branch(cfg: &Config, search: &str, walk: &Vec<DirEntry>) -> (r: Result<
    Resolution,
    ParseError,
>)
    ensures
        outcome(r) == workspace_or_branch(cfg@, search@, entries(walk@)),
{
    let info = match RepoInfo::from_owner_name(cfg, search) {
        Ok(info) => info,
        Err(e) => {
            return Err(e);
        },
    };
    let directories = collect_directories(walk, REPO_DEPTH, MAX_DEPTH);
    let owner_level_matches = find_matching_owner_dirs(info.owner.as_str(), &directories);
    if owner_level_matches.len() == 0 {
        let repo_level_matches = find_matching_repo_dirs(info.owner.as_str(), &directories);
        if repo_level_matches.len() == 0 {
            return Ok(Resolution::Clone { info, check_owner: true });
        }
        let repo = &repo_level_matches[0];
        assert(repo@ == entries(repo_level_matches@)[0]);
        let below = find_dirs_under(repo, &directories);
        let branch_level_matches = find_matching_branch_dirs(info.name.as_str(), &below);
        if branch_level_matches.len() == 0 {
            assert(repo@.is_repo(info@.owner)) by {
                entries(directories@).lemma_filter_pred(
                    |d: DirEntryView| d.is_repo(info@.owner),
                    0,
                );
            }
            let mut owner_name = repo.names[0].clone();
            owner_name.append("/");
            owner_name.append(repo.names[1].as_str());
            return match RepoInfo::from_owner_name(cfg, owner_name.as_str()) {
                Ok(found) => Ok(Resolution::Checkout { info: found, branch: info.name }),
                Err(e) => Err(e),
            };
        }
        assert(branch_level_matches[0]@ == entries(branch_level_matches@)[0]);
        return Ok(Resolution::Existing { path: branch_level_matches[0].path.clone() });
    }
    let repo_level_matches = find_matching_repo_dirs(info.name.as_str(), &owner_level_matches);
    if repo_level_matches.len() == 0 {
        return Ok(Resolution::Clone { info, check_owner: false });
    }
    assert(repo_level_matches[0]@ == entries(repo_level_matches@)[0]);
    Ok(Resolution::Repository { info, path: repo_level_matches[0].path.clone() })
}

/// Resolves the three-segment reference `search` against a walk of the host's
/// directory.
pub fn get_workspace_with_branch(cfg: &Config, search: &str, walk: &Vec<DirEntry>) -> (r:
    Result<Resolution, ParseError>)
    ensures
        outcome(r) == workspace_with_branch(cfg@, search@, entries(walk@)),
{
    let (info, branch) = match RepoInfo::from_owner_name_branch(cfg, search) {
        Ok(found) => found,
        Err(e) => {
            return Err(e);
        },
    };
    let directories = collect_directories(walk, REPO_DEPTH, MAX_DEPTH);
    let owner_level_matches = find_matching_owner_dirs(info.owner.as_str(), &directories);
    if owner_level_matches.len() == 0 {
        return Ok(Resolution::CloneAndCheckout { info, branch });
    }
    let repo_level_matches = find_matching_repo_dirs(info.name.as_str(), &owner_level_matches);
    if repo_level_matches.len() == 0 {
        return Ok(Resolution::CloneAndCheckout { info, branch });
    }
    let repo = &repo_level_matches[0];
    assert(repo@ == entries(repo_level_matches@)[0]);
    let below = find_dirs_under(repo, &directories);
    let branch_level_matches = find_matching_branch_dirs(branch.as_str(), &below);
    if branch_level_matches.len() == 0 {
        return Ok(Resolution::Checkout { info, branch });
    }
    assert(branch_level_matches[0]@ == entries(branch_level_matches@)[0]);
    Ok(Resolution::Existing { path: branch_level_matches[0].path.clone() })
}

} // verus!
