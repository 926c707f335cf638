//! A session: one resolution, led from answer to action. The caller carries out
//! each action and hands back what came of it.

use crate::git::{
    commands, default_branch, get_default_branch_with_git, git_remote_show_command,
    github_user_url, remote_show_args, user_url,
};
use crate::index::{entries, texts, DirEntry, DirEntryView};
use crate::materialize::{checkout_branch, checkout_step, clone_repo, clone_step};
use crate::reference::{
    classification, classify, Config, ConfigView, ParseError, Reference, ReferenceView, RepoInfo,
    RepoInfoView,
};
use crate::resolver::{
    get_workspace_or_branch, get_workspace_with_branch, outcome, workspace_or_branch,
    workspace_with_branch, Resolution, ResolutionView, MAX_DEPTH, REPO_DEPTH,
};
use crate::text::{join, join_path};
use vstd::prelude::*;

verus! {

/// Why a session ended without a path.
#[derive(Clone, Copy, Debug, PartialEq, Eq, Structural)]
pub enum Failure {
    /// The input names nothing that can be resolved.
    InvalidInput,
    /// Git cannot be run.
    EnvironmentMissing,
    /// The workspace could not be read, or lacks a directory that has to be there.
    WorkspaceCorruption,
    /// The host or the remote did not give what it was asked for.
    RemoteLookupFailure,
    /// The directory that a clone would fill is there already.
    AlreadyExists,
}

/// Where a clone stands: which answer it waits for.
#[derive(Clone, Copy, Debug, PartialEq, Eq, Structural)]
pub enum ClonePhase {
    /// The status of the host's answer about the owner.
    Owner,
    /// Whether the directory of the repository is there.
    Target,
    /// Whether git can be run.
    Git,
    /// The making of the directory of the repository.
    Directories,
    /// The description of the remote, which names its default branch.
    DefaultBranch,
    /// The clone itself.
    Fetch,
    /// Whether the clone has an environment of its own.
    Environment,
    /// The loading of that environment.
    Allow,
}

/// Where a checkout stands: which answer it waits for.
#[derive(Clone, Copy, Debug, PartialEq, Eq, Structural)]
pub enum CheckoutPhase {
    /// Whether the directory of the repository is there.
    Repository,
    /// Whether the directory of the branch is there.
    Target,
    /// Whether git can be run.
    Git,
    /// The description of the remote, which names its default branch.
    DefaultBranch,
    /// Whether the directory of the default branch is there.
    MainDirectory,
    /// The pull in the default branch.
    Pull,
    /// The listing of the remote branches.
    RemoteBranches,
    /// The making of the worktree.
    Worktree,
    /// Whether the default branch has a directory `node_modules`.
    Modules,
    /// The copying of that directory.
    CopyModules,
    /// The listing of the untracked files.
    Untracked,
    /// The copying of the untracked files.
    CopyUntracked,
    /// The listing of the files of the index with their tags.
    Tagged,
    /// The copying of the silently added files.
    CopyTagged,
    /// Whether the new branch has an environment of its own.
    Environment,
    /// The loading of that environment.
    Allow,
}

/// Where a session stands.
#[derive(Clone, Copy, Debug, PartialEq, Eq, Structural)]
pub enum Phase {
    /// It waits for the walk of the host's directory; `with_branch` says whether
    /// the input names a branch.
    Walk { with_branch: bool },
    /// The repository is there, and the session waits for the description of its
    /// remote, which names the default branch.
    Locate,
    Clone(ClonePhase),
    Checkout(CheckoutPhase),
    Over,
}

/// What follows a clone.
#[derive(Clone, Copy, Debug, PartialEq, Eq, Structural)]
pub enum Resume {
    /// Nothing: the path of the clone is the result.
    Finish,
    /// The checkout of a branch, from its start.
    Checkout,
    /// The rest of the checkout that found the repository missing.
    CheckoutTarget,
}

/// One file to copy, and the git commands to run on the copy afterwards in the
/// directory of the new branch.
pub struct Transfer {
    pub from: String,
    pub to: String,
    pub marks: Vec<Vec<String>>,
}

pub struct TransferView {
    pub from: Seq<char>,
    pub to: Seq<char>,
    pub marks: Seq<Seq<Seq<char>>>,
}

impl View for Transfer {
    type V = TransferView;

    open spec fn view(&self) -> TransferView {
        TransferView { from: self.from@, to: self.to@, marks: commands(self.marks@) }
    }
}

/// The views of a list of transfers.
pub open spec fn transfers(v: Seq<Transfer>) -> Seq<TransferView> {
    v.map_values(|t: Transfer| t@)
}

/// What the caller is to do next. Every action but the last two is answered by an
/// event.
pub enum Action {
    /// Walk the directory `root` and report every entry from depth `min_depth` to
    /// depth `max_depth`.
    Scan { root: String, min_depth: usize, max_depth: usize },
    /// Ask the host at `url` and report the status of its answer.
    LookUp { url: String },
    /// Report whether there is anything at `path`.
    Probe { path: String },
    /// Make the directory `path`, and those above it that are missing.
    CreateDirs { path: String },
    /// Run git with `args`, in the directory `cwd` where one is given, and report
    /// what it printed.
    Git { cwd: Option<String>, args: Vec<String> },
    /// Copy the directory `from` to `to`; it does not matter whether that works.
    CopyTree { from: String, to: String },
    /// Copy every file, then run its commands in `dir`; it does not matter whether
    /// any of that works.
    CopyFiles { dir: String, transfers: Vec<Transfer> },
    /// Let the environment of the directory `dir` be loaded from now on; it does
    /// not matter whether that works.
    Direnv { dir: String },
    /// The session is over: `path` is the result.
    Finish { path: String },
    /// The session is over without a result.
    Fail { error: Failure },
}

pub enum ActionView {
    Scan { root: Seq<char>, min_depth: usize, max_depth: usize },
    LookUp { url: Seq<char> },
    Probe { path: Seq<char> },
    CreateDirs { path: Seq<char> },
    Git { cwd: Option<Seq<char>>, args: Seq<Seq<char>> },
    CopyTree { from: Seq<char>, to: Seq<char> },
    CopyFiles { dir: Seq<char>, transfers: Seq<TransferView> },
    Direnv { dir: Seq<char> },
    Finish { path: Seq<char> },
    Fail { error: Failure },
}

/// The view of a string that may be missing.
pub open spec fn text_or_none(s: Option<String>) -> Option<Seq<char>> {
    match s {
        Some(s) => Some(s@),
        None => None,
    }
}

impl View for Action {
    type V = ActionView;

    open spec fn view(&self) -> ActionView {
        match self {
            Action::Scan { root, min_depth, max_depth } => ActionView::Scan {
                root: root@,
                min_depth: *min_depth,
                max_depth: *max_depth,
            },
            Action::LookUp { url } => ActionView::LookUp { url: url@ },
            Action::Probe { path } => ActionView::Probe { path: path@ },
            Action::CreateDirs { path } => ActionView::CreateDirs { path: path@ },
            Action::Git { cwd, args } => ActionView::Git {
                cwd: text_or_none(*cwd),
                args: texts(args@),
            },
            Action::CopyTree { from, to } => ActionView::CopyTree { from: from@, to: to@ },
            Action::CopyFiles { dir, transfers } => ActionView::CopyFiles {
                dir: dir@,
                transfers: self::transfers(transfers@),
            },
            Action::Direnv { dir } => ActionView::Direnv { dir: dir@ },
            Action::Finish { path } => ActionView::Finish { path: path@ },
            Action::Fail { error } => ActionView::Fail { error: *error },
        }
    }
}

/// The answer to an action.
pub enum Event {
    /// The entries that a walk found.
    Scanned { walk: Vec<DirEntry> },
    /// The status with which the host answered.
    Status { code: u16 },
    /// Whether there is something at the path.
    Probed { exists: bool },
    /// Git ran: what it printed, and whether it reported success.
    Output { stdout: String, success: bool },
    /// The action was carried out and has nothing to report.
    Done,
    /// The action could not be carried out.
    Failed,
}

pub enum EventView {
    Scanned { walk: Seq<DirEntryView> },
    Status { code: u16 },
    Probed { exists: bool },
    Output { stdout: Seq<char>, success: bool },
    Done,
    Failed,
}

impl View for Event {
    type V = EventView;

    open spec fn view(&self) -> EventView {
        match self {
            Event::Scanned { walk } => EventView::Scanned { walk: entries(walk@) },
            Event::Status { code } => EventView::Status { code: *code },
            Event::Probed { exists } => EventView::Probed { exists: *exists },
            Event::Output { stdout, success } => EventView::Output {
                stdout: stdout@,
                success: *success,
            },
            Event::Done => EventView::Done,
            Event::Failed => EventView::Failed,
        }
    }
}

/// A session: what one resolution knows so far.
pub struct State {
    pub phase: Phase,
    pub cfg: Config,
    /// The input.
    pub search: String,
    /// The repository that is cloned or checked out.
    pub info: RepoInfo,
    /// The branch that is checked out.
    pub branch: String,
    /// The default branch of the repository.
    pub main_branch: String,
    pub resume: Resume,
    /// The directory of the repository that was found there, and then the
    /// result, once the session has finished with one.
    pub path: String,
    /// Why the session failed, once it has.
    pub error: Option<Failure>,
}

pub struct StateView {
    pub phase: Phase,
    pub cfg: ConfigView,
    pub search: Seq<char>,
    pub info: RepoInfoView,
    pub branch: Seq<char>,
    pub main_branch: Seq<char>,
    pub resume: Resume,
    pub path: Seq<char>,
    pub error: Option<Failure>,
}

impl View for State {
    type V = StateView;

    open spec fn view(&self) -> StateView {
        StateView {
            phase: self.phase,
            cfg: self.cfg@,
            search: self.search@,
            info: self.info@,
            branch: self.branch@,
            main_branch: self.main_branch@,
            resume: self.resume,
            path: self.path@,
            error: self.error,
        }
    }
}

/// The views of a state and an action.
pub open spec fn views(r: (State, Action)) -> (StateView, ActionView) {
    (r.0@, r.1@)
}

impl StateView {
    /// The state before anything is known.
    pub open spec fn initial(cfg: ConfigView, search: Seq<char>) -> StateView {
        StateView {
            phase: Phase::Over,
            cfg,
            search,
            info: RepoInfoView {
                url: Seq::empty(),
                domain: Seq::empty(),
                owner: Seq::empty(),
                name: Seq::empty(),
            },
            branch: Seq::empty(),
            main_branch: Seq::empty(),
            resume: Resume::Finish,
            path: Seq::empty(),
            error: None,
        }
    }

    pub open spec fn at(self, phase: Phase) -> StateView {
        StateView { phase, ..self }
    }

    /// The directory of the repository.
    pub open spec fn repo_path(self) -> Seq<char> {
        self.info.repo_path(self.cfg)
    }

    /// The directory of the default branch.
    pub open spec fn main_path(self) -> Seq<char> {
        join_path(self.repo_path(), self.main_branch)
    }

    /// The directory of the branch that is checked out.
    pub open spec fn branch_path(self) -> Seq<char> {
        join_path(self.repo_path(), self.branch)
    }

    /// The session ends without a result.
    pub open spec fn fail(self, error: Failure) -> (StateView, ActionView) {
        (StateView { phase: Phase::Over, error: Some(error), ..self }, ActionView::Fail { error })
    }

    /// The session ends with the result `path`.
    pub open spec fn finish(self, path: Seq<char>) -> (StateView, ActionView) {
        (StateView { phase: Phase::Over, path, error: None, ..self }, ActionView::Finish { path })
    }

    /// How the session ended.
    pub open spec fn verdict(self) -> ActionView {
        match self.error {
            Some(error) => ActionView::Fail { error },
            None => ActionView::Finish { path: self.path },
        }
    }

    pub open spec fn probe(self, phase: Phase, path: Seq<char>) -> (StateView, ActionView) {
        (self.at(phase), ActionView::Probe { path })
    }

    pub open spec fn git(self, phase: Phase, cwd: Option<Seq<char>>, args: Seq<Seq<char>>) -> (
        StateView,
        ActionView,
    ) {
        (self.at(phase), ActionView::Git { cwd, args })
    }

    /// A clone begins with a look at the directory it would fill.
    pub open spec fn begin_clone(self) -> (StateView, ActionView) {
        self.probe(Phase::Clone(ClonePhase::Target), self.repo_path())
    }

    /// A checkout begins with a look at the directory of the repository.
    pub open spec fn begin_checkout(self) -> (StateView, ActionView) {
        self.probe(Phase::Checkout(CheckoutPhase::Repository), self.repo_path())
    }

    /// What follows the resolution `r` of the input against the index.
    pub open spec fn resolved(self, r: Result<ResolutionView, ParseError>) -> (
        StateView,
        ActionView,
    ) {
        match r {
            Err(_) => self.fail(Failure::InvalidInput),
            Ok(ResolutionView::Existing { path }) => self.finish(path),
            Ok(ResolutionView::Repository { info, path }) => StateView {
                info,
                path,
                ..self
            }.git(Phase::Locate, None, remote_show_args(info.url)),
            Ok(ResolutionView::Clone { info, check_owner }) => {
                let t = StateView { info, resume: Resume::Finish, ..self };
                if check_owner {
                    (
                        t.at(Phase::Clone(ClonePhase::Owner)),
                        ActionView::LookUp { url: user_url(info.owner) },
                    )
                } else {
                    t.begin_clone()
                }
            },
            Ok(ResolutionView::CloneAndCheckout { info, branch }) => StateView {
                info,
                branch,
                resume: Resume::Checkout,
                ..self
            }.begin_clone(),
            Ok(ResolutionView::Checkout { info, branch }) => StateView {
                info,
                branch,
                ..self
            }.begin_checkout(),
        }
    }
}

/// The first state and action of a session for `input`. A git remote address is
/// cloned; the other references are resolved against a walk of the host's
/// directory.
pub open spec fn first_step(cfg: ConfigView, input: Seq<char>) -> (StateView, ActionView) {
    let s = StateView::initial(cfg, input);
    let scan = ActionView::Scan {
        root: cfg.top_level_dir(),
        min_depth: REPO_DEPTH,
        max_depth: MAX_DEPTH,
    };
    match classification(input) {
        Err(_) => s.fail(Failure::InvalidInput),
        Ok(ReferenceView::TwoSegment { .. }) => (s.at(Phase::Walk { with_branch: false }), scan),
        Ok(ReferenceView::ThreeSegment { .. }) => (s.at(Phase::Walk { with_branch: true }), scan),
        Ok(ReferenceView::RemoteUrl { domain, owner, name }) => StateView {
            info: RepoInfoView { url: input, domain, owner, name },
            ..s
        }.begin_clone(),
    }
}

/// The step of a session that waits for the walk: the input is resolved against
/// what the walk found. A walk that failed ends the session.
pub open spec fn walk_step(s: StateView, with_branch: bool, e: EventView) -> (
    StateView,
    ActionView,
) {
    match e {
        EventView::Scanned { walk } => s.resolved(
            if with_branch {
                workspace_with_branch(s.cfg, s.search, walk)
            } else {
                workspace_or_branch(s.cfg, s.search, walk)
            },
        ),
        _ => s.fail(Failure::WorkspaceCorruption),
    }
}

/// The step of a session that found the repository there and waits for the
/// description of its remote: the result is the directory of the default branch
/// below the directory of the repository. Without the name of that branch the
/// session fails.
pub open spec fn locate_step(s: StateView, e: EventView) -> (StateView, ActionView) {
    match e {
        EventView::Output { stdout, .. } => match default_branch(stdout) {
            Some(main_branch) => s.finish(join_path(s.path, main_branch)),
            None => s.fail(Failure::RemoteLookupFailure),
        },
        _ => s.fail(Failure::RemoteLookupFailure),
    }
}

/// The state and the action that follow when the session `s` gets the answer `e`.
/// A session that is over stays as it is and gives its verdict again.
pub open spec fn next_step(s: StateView, e: EventView) -> (StateView, ActionView) {
    match s.phase {
        Phase::Walk { with_branch } => walk_step(s, with_branch, e),
        Phase::Locate => locate_step(s, e),
        Phase::Clone(phase) => clone_step(s, phase, e),
        Phase::Checkout(phase) => checkout_step(s, phase, e),
        Phase::Over => (s, s.verdict()),
    }
}

impl State {
    /// Builds the directory of the repository.
    pub fn repo_path(&self) -> (path: String)
        ensures
            path@ == self@.repo_path(),
    {
        self.info.get_repo_path(&self.cfg)
    }

    /// Builds the directory of the default branch.
    pub fn main_path(&self) -> (path: String)
        ensures
            path@ == self@.main_path(),
    {
        join(self.repo_path().as_str(), self.main_branch.as_str())
    }

    /// Builds the directory of the branch that is checked out.
    pub fn branch_path(&self) -> (path: String)
        ensures
            path@ == self@.branch_path(),
    {
        join(self.repo_path().as_str(), self.branch.as_str())
    }

    /// Whether the session is over.
    pub fn is_over(&self) -> (r: bool)
        ensures
            r == (self@.phase == Phase::Over),
    {
        self.phase == Phase::Over
    }

    /// Ends the session without a result.
    pub fn fail(self, error: Failure) -> (r: (State, Action))
        ensures
            views(r) == self@.fail(error),
    {
        (State { phase: Phase::Over, error: Some(error), ..self }, Action::Fail { error })
    }

    /// Ends the session with the result `path`.
    pub fn finish(self, path: String) -> (r: (State, Action))
        ensures
            views(r) == self@.finish(path@),
    {
        (
            State { phase: Phase::Over, path: path.clone(), error: None, ..self },
            Action::Finish { path },
        )
    }

    /// Says how the session ended.
    pub fn verdict(&self) -> (action: Action)
        ensures
            action@ == self@.verdict(),
    {
        match self.error {
            Some(error) => Action::Fail { error },
            None => Action::Finish { path: self.path.clone() },
        }
    }

    /// Goes on to `phase` with a look at `path`.
    pub fn probe(self, phase: Phase, path: String) -> (r: (State, Action))
        ensures
            views(r) == self@.probe(phase, path@),
    {
        (State { phase, ..self }, Action::Probe { path })
    }

    /// Goes on to `phase` with a run of git.
    pub fn git(self, phase: Phase, cwd: Option<String>, args: Vec<String>) -> (r: (State, Action))
        ensures
            views(r) == self@.git(phase, text_or_none(cwd), texts(args@)),
    {
        (State { phase, ..self }, Action::Git { cwd, args })
    }

    /// Begins a clone.
    pub fn begin_clone(self) -> (r: (State, Action))
        ensures
            views(r) == self@.begin_clone(),
    {
        let path = self.repo_path();
        self.probe(Phase::Clone(ClonePhase::Target), path)
    }

    /// Begins a checkout.
    pub fn begin_checkout(self) -> (r: (State, Action))
        ensures
            views(r) == self@.begin_checkout(),
    {
        let path = self.repo_path();
        self.probe(Phase::Checkout(CheckoutPhase::Repository), path)
    }

    fn resolved(self, r: Result<Resolution, ParseError>) -> (next: (State, Action))
        ensures
            views(next) == self@.resolved(outcome(r)),
    {
        match r {
            Err(_) => self.fail(Failure::InvalidInput),
            Ok(Resolution::Existing { path }) => self.finish(path),
            Ok(Resolution::Repository { info, path }) => {
                let args = git_remote_show_command(info.url.as_str());
                State { info, path, ..self }.git(Phase::Locate, None, args)
            },
            Ok(Resolution::Clone { info, check_owner }) => {
                let t = State { info, resume: Resume::Finish, ..self };
                if check_owner {
                    let url = github_user_url(t.info.owner.as_str());
                    (State { phase: Phase::Clone(ClonePhase::Owner), ..t }, Action::LookUp { url })
                } else {
                    t.begin_clone()
                }
            },
            Ok(Resolution::CloneAndCheckout { info, branch }) => State {
                info,
                branch,
                resume: Resume::Checkout,
                ..self
            }.begin_clone(),
            Ok(Resolution::Checkout { info, branch }) => State {
                info,
                branch,
                ..self
            }.begin_checkout(),
        }
    }
}

/// Begins a session for `input`.
pub fn start(cfg: Config, input: &str) -> (r: (State, Action))
    ensures
        views(r) == first_step(cfg@, input@),
{
    let root = cfg.get_default_top_level_dir();
    let s = State {
        phase: Phase::Over,
        cfg,
        search: input.to_owned(),
        info: RepoInfo {
            url: String::new(),
            domain: String::new(),
            owner: String::new(),
            name: String::new(),
        },
        branch: String::new(),
        main_branch: String::new(),
        resume: Resume::Finish,
        path: String::new(),
        error: None,
    };
    assert(s@ == StateView::initial(cfg@, input@));
    match classify(input) {
        Err(_) => s.fail(Failure::InvalidInput),
        Ok(Reference::TwoSegment { .. }) => (
            State { phase: Phase::Walk { with_branch: false }, ..s },
            Action::Scan { root, min_depth: REPO_DEPTH, max_depth: MAX_DEPTH },
        ),
        Ok(Reference::ThreeSegment { .. }) => (
            State { phase: Phase::Walk { with_branch: true }, ..s },
            Action::Scan { root, min_depth: REPO_DEPTH, max_depth: MAX_DEPTH },
        ),
        Ok(Reference::RemoteUrl { domain, owner, name }) => State {
            info: RepoInfo { url: input.to_owned(), domain, owner, name },
            ..s
        }.begin_clone(),
    }
}

/// Resolves the input of the session against what the walk found.
pub fn resolve(state: State, with_branch: bool, event: Event) -> (r: (State, Action))
    ensures
        views(r) == walk_step(state@, with_branch, event@),
{
    match event {
        Event::Scanned { walk } => {
            let r = if with_branch {
                get_workspace_with_branch(&state.cfg, state.search.as_str(), &walk)
            } else {
                get_workspace_or_branch(&state.cfg, state.search.as_str(), &walk)
            };
            state.resolved(r)
        },
        _ => state.fail(Failure::WorkspaceCorruption),
    }
}

/// Finds the directory of the default branch of a repository that is there.
pub fn locate(state: State, event: Event) -> (r: (State, Action))
    ensures
        views(r) == locate_step(state@, event@),
{
    match event {
        Event::Output { stdout, .. } => match get_default_branch_with_git(stdout.as_str()) {
            Some(main_branch) => {
                let path = join(state.path.as_str(), main_branch.as_str());
                state.finish(path)
            },
            None => state.fail(Failure::RemoteLookupFailure),
        },
        _ => state.fail(Failure::RemoteLookupFailure),
    }
}

/// Takes the session one step further: from the answer to the last action to the
/// next action.
pub fn step(state: State, event: Event) -> (r: (State, Action))
    ensures
        views(r) == next_step(state@, event@),
{
    match state.phase {
        Phase::Walk { with_branch } => resolve(state, with_branch, event),
        Phase::Locate => locate(state, event),
        Phase::Clone(phase) => clone_repo(state, phase, event),
        Phase::Checkout(phase) => checkout_branch(state, phase, event),
        Phase::Over => {
            let action = state.verdict();
            (state, action)
        },
    }
}

} // verus!
