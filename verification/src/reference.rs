//! References to repositories: the configuration that gives them their meaning,
//! the three shapes in which they are written, and the repositories they name.

use crate::text::{
    chars_of, contains, contains_text, ends_with, find_char, first_index, is_segment, join,
    join_path, segment, slice_views, split, split_at_char, starts_with, text_of,
};
use vstd::prelude::*;
use vstd::slice::slice_subrange;
use vstd::string::StringExecFns;

verus! {

/// Where the workspace lives and which host a short reference means.
pub struct Config {
    pub root_dir: String,
    pub default_domain: String,
}

pub struct ConfigView {
    pub root_dir: Seq<char>,
    pub default_domain: Seq<char>,
}

impl View for Config {
    type V = ConfigView;

    open spec fn view(&self) -> ConfigView {
        ConfigView { root_dir: self.root_dir@, default_domain: self.default_domain@ }
    }
}

impl Config {
    /// The configuration of a user whose home directory is `home`: the workspace is
    /// the directory `code` below it, and short references mean `github.com`.
    pub fn new(home: &str) -> (cfg: Config)
        ensures
            cfg@.root_dir == join_path(home@, "code"@),
            cfg@.default_domain == "github.com"@,
    {
        Config { root_dir: join(home, "code"), default_domain: "github.com".to_owned() }
    }

    /// The directory of the default host: the root that the index is taken of.
    pub fn get_default_top_level_dir(&self) -> (dir: String)
        ensures
            dir@ == self@.top_level_dir(),
    {
        join(self.root_dir.as_str(), self.default_domain.as_str())
    }
}

impl ConfigView {
    pub open spec fn top_level_dir(self) -> Seq<char> {
        join_path(self.root_dir, self.default_domain)
    }
}

/// Why a reference could not be read.
#[derive(Clone, Copy, Debug, PartialEq, Eq, Structural)]
pub enum ParseError {
    /// The input is written as a reference or as a git remote address, but a
    /// segment is missing, in excess, empty or holds a character that no segment
    /// may hold.
    InvalidReference,
    /// The input holds `://`; such addresses are not handled.
    UnsupportedUrl,
    /// The input is written in no known way: it would be a search.
    UnsupportedSearch,
}

/// A repository: where to fetch it from and where it belongs in the workspace.
pub struct RepoInfo {
    pub url: String,
    pub domain: String,
    pub owner: String,
    pub name: String,
}

pub struct RepoInfoView {
    pub url: Seq<char>,
    pub domain: Seq<char>,
    pub owner: Seq<char>,
    pub name: Seq<char>,
}

impl View for RepoInfo {
    type V = RepoInfoView;

    open spec fn view(&self) -> RepoInfoView {
        RepoInfoView {
            url: self.url@,
            domain: self.domain@,
            owner: self.owner@,
            name: self.name@,
        }
    }
}

impl RepoInfoView {
    /// Owner and name are path segments.
    pub open spec fn wf(self) -> bool {
        is_segment(self.owner) && is_segment(self.name)
    }

    /// The repository of `owner` and `name` on the default host.
    pub open spec fn on_default_host(cfg: ConfigView, owner: Seq<char>, name: Seq<char>) -> Self {
        RepoInfoView {
            url: ssh_url(cfg.default_domain, owner, name),
            domain: cfg.default_domain,
            owner,
            name,
        }
    }

    /// The repository's directory in the workspace.
    pub open spec fn repo_path(self, cfg: ConfigView) -> Seq<char> {
        join_path(join_path(join_path(cfg.root_dir, self.domain), self.owner), self.name)
    }
}

/// The address `git@{domain}:{owner}/{name}.git`.
pub open spec fn ssh_url(domain: Seq<char>, owner: Seq<char>, name: Seq<char>) -> Seq<char> {
    "git@"@ + domain + ":"@ + owner + "/"@ + name + ".git"@
}

/// `owner/name`: two segments with one `/` between them.
pub open spec fn two_segments(s: Seq<char>) -> Option<(Seq<char>, Seq<char>)> {
    let p = split(s, '/');
    if p.len() == 2 && is_segment(p[0]) && is_segment(p[1]) {
        Some((p[0], p[1]))
    } else {
        None
    }
}

/// `owner/name/branch`: three segments.
pub open spec fn three_segments(s: Seq<char>) -> Option<(Seq<char>, Seq<char>, Seq<char>)> {
    let p = split(s, '/');
    if p.len() == 3 && is_segment(p[0]) && is_segment(p[1]) && is_segment(p[2]) {
        Some((p[0], p[1], p[2]))
    } else {
        None
    }
}

/// `s` without a closing `.git`.
pub open spec fn without_git_suffix(s: Seq<char>) -> Seq<char> {
    if ".git"@.is_suffix_of(s) {
        s.take(s.len() - ".git"@.len())
    } else {
        s
    }
}

/// What follows the user of a git remote address: `s` without a leading `git@` or
/// `gitea@`.
pub open spec fn after_git_user(s: Seq<char>) -> Option<Seq<char>> {
    if "git@"@.is_prefix_of(s) {
        Some(s.skip("git@"@.len() as int))
    } else if "gitea@"@.is_prefix_of(s) {
        Some(s.skip("gitea@"@.len() as int))
    } else {
        None
    }
}

/// A git remote address, `git@host:path` or `gitea@host:path`, as host and path; the
/// host is not empty and ends at the first `:`, and a closing `.git` is no part of
/// the path.
pub open spec fn git_remote(s: Seq<char>) -> Option<(Seq<char>, Seq<char>)> {
    match after_git_user(s) {
        Some(rest) => {
            let i = first_index(rest, ':');
            if 0 < i < rest.len() {
                Some((rest.take(i), without_git_suffix(rest.skip(i + 1))))
            } else {
                None
            }
        },
        None => None,
    }
}

/// Reads `owner/name`.
pub fn parse_two(s: &[char]) -> (r: Option<(String, String)>)
    ensures
        match r {
            Some((a, b)) => two_segments(s@) == Some((a@, b@)),
            None => two_segments(s@) is None,
        },
{
    let p = split_at_char(s, '/');
    assert(forall|i: int| 0 <= i < p.len() ==> #[trigger] p@[i]@ == slice_views(p@)[i]);
    if p.len() == 2 && segment(p[0]) && segment(p[1]) {
        Some((text_of(p[0]), text_of(p[1])))
    } else {
        None
    }
}

/// Reads `owner/name/branch`.
pub fn parse_three(s: &[char]) -> (r: Option<(String, String, String)>)
    ensures
        match r {
            Some((a, b, c)) => three_segments(s@) == Some((a@, b@, c@)),
            None => three_segments(s@) is None,
        },
{
    let p = split_at_char(s, '/');
    assert(forall|i: int| 0 <= i < p.len() ==> #[trigger] p@[i]@ == slice_views(p@)[i]);
    if p.len() == 3 && segment(p[0]) && segment(p[1]) && segment(p[2]) {
        Some((text_of(p[0]), text_of(p[1]), text_of(p[2])))
    } else {
        None
    }
}

/// Splits a git remote address into host and path.
pub fn parse_git_remote(s: &[char]) -> (r: Option<(&[char], &[char])>)
    ensures
        match r {
            Some((host, path)) => git_remote(s@) == Some((host@, path@)),
            None => git_remote(s@) is None,
        },
{
    let git = chars_of("git@");
    let gitea = chars_of("gitea@");
    let suffix = chars_of(".git");
    let rest = if starts_with(s, git.as_slice()) {
        slice_subrange(s, git.len(), s.len())
    } else if starts_with(s, gitea.as_slice()) {
        slice_subrange(s, gitea.len(), s.len())
    } else {
        return None;
    };
    let i = find_char(rest, ':');
    if 0 < i && i < rest.len() {
        let host = slice_subrange(rest, 0, i);
        let tail = slice_subrange(rest, i + 1, rest.len());
        let path = if ends_with(tail, suffix.as_slice()) {
            slice_subrange(tail, 0, tail.len() - suffix.len())
        } else {
            tail
        };
        Some((host, path))
    } else {
        None
    }
}

/// What an input names.
pub enum Reference {
    TwoSegment { owner: String, name: String },
    ThreeSegment { owner: String, name: String, branch: String },
    RemoteUrl { domain: String, owner: String, name: String },
}

pub enum ReferenceView {
    TwoSegment { owner: Seq<char>, name: Seq<char> },
    ThreeSegment { owner: Seq<char>, name: Seq<char>, branch: Seq<char> },
    RemoteUrl { domain: Seq<char>, owner: Seq<char>, name: Seq<char> },
}

impl View for Reference {
    type V = ReferenceView;

    open spec fn view(&self) -> ReferenceView {
        match self {
            Reference::TwoSegment { owner, name } => ReferenceView::TwoSegment {
                owner: owner@,
                name: name@,
            },
            Reference::ThreeSegment { owner, name, branch } => ReferenceView::ThreeSegment {
                owner: owner@,
                name: name@,
                branch: branch@,
            },
            Reference::RemoteUrl { domain, owner, name } => ReferenceView::RemoteUrl {
                domain: domain@,
                owner: owner@,
                name: name@,
            },
        }
    }
}

/// `s` is written as a reference is: in parts with `/` between them.
pub open spec fn has_slash(s: Seq<char>) -> bool {
    first_index(s, '/') < s.len()
}

/// What `s` names. The shapes are tried in this order: `owner/name`,
/// `owner/name/branch`, a git remote address. An address of that kind whose path
/// is not `owner/name` is invalid. Of the rest, what holds `://` is an address of
/// a kind that is not handled; what else is written with `/` is a reference with
/// too few or too many segments, or with a segment that is empty or holds a
/// character that no segment may hold, and is invalid; anything else would be a
/// search.
pub open spec fn classification(s: Seq<char>) -> Result<ReferenceView, ParseError> {
    if let Some((owner, name)) = two_segments(s) {
        Ok(ReferenceView::TwoSegment { owner, name })
    } else if let Some((owner, name, branch)) = three_segments(s) {
        Ok(ReferenceView::ThreeSegment { owner, name, branch })
    } else if let Some((domain, path)) = git_remote(s) {
        if let Some((owner, name)) = two_segments(path) {
            Ok(ReferenceView::RemoteUrl { domain, owner, name })
        } else {
            Err(ParseError::InvalidReference)
        }
    } else if contains_text(s, "://"@) {
        Err(ParseError::UnsupportedUrl)
    } else if has_slash(s) {
        Err(ParseError::InvalidReference)
    } else {
        Err(ParseError::UnsupportedSearch)
    }
}

/// Says what `input` names.
pub fn classify(input: &str) -> (r: Result<Reference, ParseError>)
    ensures
        match r {
            Ok(reference) => classification(input@) == Ok::<ReferenceView, ParseError>(
                reference@,
            ),
            Err(e) => classification(input@) == Err::<ReferenceView, ParseError>(e),
        },
{
    let v = chars_of(input);
    let s = v.as_slice();
    if let Some((owner, name)) = parse_two(s) {
        return Ok(Reference::TwoSegment { owner, name });
    }
    if let Some((owner, name, branch)) = parse_three(s) {
        return Ok(Reference::ThreeSegment { owner, name, branch });
    }
    if let Some((host, path)) = parse_git_remote(s) {
        return match parse_two(path) {
            Some((owner, name)) => Ok(Reference::RemoteUrl { domain: text_of(host), owner, name }),
            None => Err(ParseError::InvalidReference),
        };
    }
    let scheme = chars_of("://");
    if contains(s, scheme.as_slice()) {
        Err(ParseError::UnsupportedUrl)
    } else if find_char(s, '/') < s.len() {
        Err(ParseError::InvalidReference)
    } else {
        Err(ParseError::UnsupportedSearch)
    }
}

impl RepoInfo {
    /// The repository that a git remote address names; the address itself is kept as
    /// the place to fetch from.
    pub fn from_git_url(input: &str) -> (r: Result<RepoInfo, ParseError>)
        ensures
            match r {
                Ok(info) => git_remote(input@) matches Some((host, path)) && two_segments(path)
                    == Some((info@.owner, info@.name)) && info@.domain == host && info@.url
                    == input@ && info@.wf(),
                Err(e) => e == ParseError::InvalidReference && !(git_remote(input@) matches Some(
                    (_, path),
                ) && two_segments(path) is Some),
            },
    {
        let s = chars_of(input);
        match parse_git_remote(s.as_slice()) {
            Some((host, path)) => match parse_two(path) {
                Some((owner, name)) => Ok(
                    RepoInfo { url: input.to_owned(), domain: text_of(host), owner, name },
                ),
                None => Err(ParseError::InvalidReference),
            },
            None => Err(ParseError::InvalidReference),
        }
    }

    /// The repository `owner/name` on the default host.
    pub fn from_owner_name(cfg: &Config, input: &str) -> (r: Result<RepoInfo, ParseError>)
        ensures
            match r {
                Ok(info) => two_segments(input@) matches Some((owner, name)) && info@
                    == RepoInfoView::on_default_host(cfg@, owner, name) && info@.wf(),
                Err(e) => e == ParseError::InvalidReference && two_segments(input@) is None,
            },
    {
        let s = chars_of(input);
        match parse_two(s.as_slice()) {
            Some((owner, name)) => Ok(RepoInfo::on_default_host(cfg, owner, name)),
            None => Err(ParseError::InvalidReference),
        }
    }

    /// The repository and the branch that `owner/name/branch` names, on the default
    /// host.
    pub fn from_owner_name_branch(cfg: &Config, input: &str) -> (r: Result<
        (RepoInfo, String),
        ParseError,
    >)
        ensures
            match r {
                Ok((info, branch)) => three_segments(input@) matches Some((owner, name, b))
                    && info@ == RepoInfoView::on_default_host(cfg@, owner, name) && info@.wf()
                    && branch@ == b && is_segment(b),
                Err(e) => e == ParseError::InvalidReference && three_segments(input@) is None,
            },
    {
        let s = chars_of(input);
        match parse_three(s.as_slice()) {
            Some((owner, name, branch)) => Ok(
                (RepoInfo::on_default_host(cfg, owner, name), branch),
            ),
            None => Err(ParseError::InvalidReference),
        }
    }

    /// The repository of `owner` and `name` on the default host, with the address
    /// that the host gives it.
    pub fn on_default_host(cfg: &Config, owner: String, name: String) -> (info: RepoInfo)
        ensures
            info@ == RepoInfoView::on_default_host(cfg@, owner@, name@),
    {
        let mut url = "git@".to_owned();
        url.append(cfg.default_domain.as_str());
        url.append(":");
        url.append(owner.as_str());
        url.append("/");
        url.append(name.as_str());
        url.append(".git");
        RepoInfo { url, domain: cfg.default_domain.clone(), owner, name }
    }

    /// The repository's directory: `root/domain/owner/name`.
    pub fn get_repo_path(&self, cfg: &Config) -> (path: String)
        ensures
            path@ == self@.repo_path(cfg@),
    {
        let host = join(cfg.root_dir.as_str(), self.domain.as_str());
        let owner = join(host.as_str(), self.owner.as_str());
        join(owner.as_str(), self.name.as_str())
    }
}

} // verus!
