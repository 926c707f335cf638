//! The two things that a session may have to do: the clone of a repository, and
//! the checkout of a branch into a worktree of its own.

use crate::git::{
    check_git_installed, check_github_user_exists, clone_args, commands, default_branch,
    get_default_branch_with_git, git_checkout_worktree, git_clone_command,
    git_get_remote_branches_command, git_get_silently_added_files, git_get_untracked_files,
    git_pull_command, git_remote_branches_command, git_remote_show_command,
    git_silent_add_file, git_tagged_files_command, git_untracked_files_command, is_success,
    named_in, pull_args, remote_branches_args, remote_show_args, silent_add_args,
    tagged_files_args, untracked_files_args, version_args, worktree_args, Listing,
};
use crate::index::texts;
use crate::session::{
    transfers, views, Action, ActionView, CheckoutPhase, ClonePhase, Event, EventView, Failure,
    Phase, Resume, State, StateView, Transfer, TransferView,
};
use crate::text::{join, join_path, same_text};
use vstd::prelude::*;

verus! {

/// Whether `branch` has to be made: it is none of the remote branches that
/// `output` lists.
pub open spec fn is_new_branch(branch: Seq<char>, output: Seq<char>) -> bool {
    !named_in(Listing::RemoteBranches, output).contains(branch)
}

/// The transfer of `file` from the directory `main` to the directory `branch`, to
/// the same place below it; with `mark`, the copy is then added silently.
pub open spec fn transfer_of(
    main: Seq<char>,
    branch: Seq<char>,
    file: Seq<char>,
    mark: bool,
) -> TransferView {
    let to = join_path(branch, file);
    TransferView {
        from: join_path(main, file),
        to,
        marks: if mark {
            silent_add_args(to)
        } else {
            Seq::empty()
        },
    }
}

/// The transfers of `files`, one for each and in their order.
pub open spec fn transfers_of(
    main: Seq<char>,
    branch: Seq<char>,
    files: Seq<Seq<char>>,
    mark: bool,
) -> Seq<TransferView> {
    files.map_values(|file: Seq<char>| transfer_of(main, branch, file, mark))
}

/// The session goes on to the phase `phase` of a clone.
pub open spec fn cloning(phase: ClonePhase) -> Phase {
    Phase::Clone(phase)
}

/// The session goes on to the phase `phase` of a checkout.
pub open spec fn checking_out(phase: CheckoutPhase) -> Phase {
    Phase::Checkout(phase)
}

/// What follows a clone: the result, or the checkout that asked for the clone.
pub open spec fn after_clone(s: StateView) -> (StateView, ActionView) {
    match s.resume {
        Resume::Finish => s.finish(s.main_path()),
        Resume::Checkout => s.begin_checkout(),
        Resume::CheckoutTarget => s.probe(
            checking_out(CheckoutPhase::Target),
            s.branch_path(),
        ),
    }
}

/// The step of a clone that stands at `phase` and gets the answer `e`.
///
/// The repository is cloned into the directory of its default branch, below a
/// directory of its own that must not be there yet. Where the answer decides how
/// the clone goes on, an answer of another kind counts as the failure of the
/// action; the clone has to report success. It does not matter whether the
/// environment can be loaded.
pub open spec fn clone_step(s: StateView, phase: ClonePhase, e: EventView) -> (
    StateView,
    ActionView,
) {
    match phase {
        ClonePhase::Owner => match e {
            EventView::Status { code } => if is_success(code) {
                s.begin_clone()
            } else {
                s.fail(Failure::RemoteLookupFailure)
            },
            _ => s.fail(Failure::RemoteLookupFailure),
        },
        ClonePhase::Target => match e {
            EventView::Probed { exists } => if exists {
                s.fail(Failure::AlreadyExists)
            } else {
                s.git(cloning(ClonePhase::Git), None, version_args())
            },
            _ => s.fail(Failure::WorkspaceCorruption),
        },
        ClonePhase::Git => match e {
            EventView::Output { .. } => (
                s.at(cloning(ClonePhase::Directories)),
                ActionView::CreateDirs { path: s.repo_path() },
            ),
            _ => s.fail(Failure::EnvironmentMissing),
        },
        ClonePhase::Directories => match e {
            EventView::Done => s.git(
                cloning(ClonePhase::DefaultBranch),
                None,
                remote_show_args(s.info.url),
            ),
            _ => s.fail(Failure::WorkspaceCorruption),
        },
        ClonePhase::DefaultBranch => match e {
            EventView::Output { stdout, .. } => match default_branch(stdout) {
                Some(main_branch) => {
                    let t = StateView { main_branch, ..s };
                    t.git(cloning(ClonePhase::Fetch), None, clone_args(t.info.url, t.main_path()))
                },
                None => s.fail(Failure::RemoteLookupFailure),
            },
            _ => s.fail(Failure::RemoteLookupFailure),
        },
        ClonePhase::Fetch => match e {
            EventView::Output { success: true, .. } => s.probe(
                cloning(ClonePhase::Environment),
                join_path(s.main_path(), ".envrc"@),
            ),
            _ => s.fail(Failure::RemoteLookupFailure),
        },
        ClonePhase::Environment => match e {
            EventView::Probed { exists: true } => (
                s.at(cloning(ClonePhase::Allow)),
                ActionView::Direnv { dir: s.main_path() },
            ),
            _ => after_clone(s),
        },
        ClonePhase::Allow => after_clone(s),
    }
}

/// The listing of the files that git does not track in the default branch.
pub open spec fn list_untracked(s: StateView) -> (StateView, ActionView) {
    s.git(checking_out(CheckoutPhase::Untracked), Some(s.main_path()), untracked_files_args())
}

/// The copying of the files that `output` lists from the default branch to the
/// new one.
pub open spec fn copy_files(
    s: StateView,
    phase: CheckoutPhase,
    kind: Listing,
    output: Seq<char>,
    mark: bool,
) -> (StateView, ActionView) {
    (
        s.at(checking_out(phase)),
        ActionView::CopyFiles {
            dir: s.branch_path(),
            transfers: transfers_of(s.main_path(), s.branch_path(), named_in(kind, output), mark),
        },
    )
}

/// The step of a checkout that stands at `phase` and gets the answer `e`.
///
/// A repository that is missing is cloned first, and a branch directory that is
/// there is the result. Else the default branch is pulled, and the worktree of
/// the branch is made beside it: on the remote branch where the remote has the
/// branch, on a new branch where it has not. Then the directory `node_modules`,
/// the untracked files and the silently added files are copied over, and the
/// environment of the new branch is loaded.
///
/// Where the answer decides how the checkout goes on, an answer of another kind
/// counts as the failure of the action; it is enough that git ran. The pull, the
/// worktree, the copies and the environment do not decide: the same step follows
/// whatever the answer is.
pub open spec fn checkout_step(s: StateView, phase: CheckoutPhase, e: EventView) -> (
    StateView,
    ActionView,
) {
    match phase {
        CheckoutPhase::Repository => match e {
            EventView::Probed { exists } => if exists {
                s.probe(checking_out(CheckoutPhase::Target), s.branch_path())
            } else {
                StateView { resume: Resume::CheckoutTarget, ..s }.begin_clone()
            },
            _ => s.fail(Failure::WorkspaceCorruption),
        },
        CheckoutPhase::Target => match e {
            EventView::Probed { exists } => if exists {
                s.finish(s.branch_path())
            } else {
                s.git(checking_out(CheckoutPhase::Git), None, version_args())
            },
            _ => s.fail(Failure::WorkspaceCorruption),
        },
        CheckoutPhase::Git => match e {
            EventView::Output { .. } => s.git(
                checking_out(CheckoutPhase::DefaultBranch),
                None,
                remote_show_args(s.info.url),
            ),
            _ => s.fail(Failure::EnvironmentMissing),
        },
        CheckoutPhase::DefaultBranch => match e {
            EventView::Output { stdout, .. } => match default_branch(stdout) {
                Some(main_branch) => {
                    let t = StateView { main_branch, ..s };
                    t.probe(checking_out(CheckoutPhase::MainDirectory), t.main_path())
                },
                None => s.fail(Failure::RemoteLookupFailure),
            },
            _ => s.fail(Failure::RemoteLookupFailure),
        },
        CheckoutPhase::MainDirectory => match e {
            EventView::Probed { exists: true } => s.git(
                checking_out(CheckoutPhase::Pull),
                Some(s.main_path()),
                pull_args(),
            ),
            _ => s.fail(Failure::WorkspaceCorruption),
        },
        CheckoutPhase::Pull => s.git(
            checking_out(CheckoutPhase::RemoteBranches),
            Some(s.main_path()),
            remote_branches_args(),
        ),
        CheckoutPhase::RemoteBranches => match e {
            EventView::Output { stdout, .. } => s.git(
                checking_out(CheckoutPhase::Worktree),
                Some(s.main_path()),
                worktree_args(s.branch, is_new_branch(s.branch, stdout)),
            ),
            _ => s.fail(Failure::EnvironmentMissing),
        },
        CheckoutPhase::Worktree => s.probe(
            checking_out(CheckoutPhase::Modules),
            join_path(s.main_path(), "node_modules"@),
        ),
        CheckoutPhase::Modules => match e {
            EventView::Probed { exists: true } => (
                s.at(checking_out(CheckoutPhase::CopyModules)),
                ActionView::CopyTree {
                    from: join_path(s.main_path(), "node_modules"@),
                    to: join_path(s.branch_path(), "node_modules"@),
                },
            ),
            _ => list_untracked(s),
        },
        CheckoutPhase::CopyModules => list_untracked(s),
        CheckoutPhase::Untracked => match e {
            EventView::Output { stdout, .. } => copy_files(
                s,
                CheckoutPhase::CopyUntracked,
                Listing::Untracked,
                stdout,
                false,
            ),
            _ => s.fail(Failure::EnvironmentMissing),
        },
        CheckoutPhase::CopyUntracked => s.git(
            checking_out(CheckoutPhase::Tagged),
            Some(s.main_path()),
            tagged_files_args(),
        ),
        CheckoutPhase::Tagged => match e {
            EventView::Output { stdout, .. } => copy_files(
                s,
                CheckoutPhase::CopyTagged,
                Listing::Tagged,
                stdout,
                true,
            ),
            _ => s.fail(Failure::EnvironmentMissing),
        },
        CheckoutPhase::CopyTagged => s.probe(
            checking_out(CheckoutPhase::Environment),
            join_path(s.branch_path(), ".envrc"@),
        ),
        CheckoutPhase::Environment => match e {
            EventView::Probed { exists: true } => (
                s.at(checking_out(CheckoutPhase::Allow)),
                ActionView::Direnv { dir: s.branch_path() },
            ),
            _ => s.finish(s.branch_path()),
        },
        CheckoutPhase::Allow => s.finish(s.branch_path()),
    }
}

/// Decides whether `name` is one of `names`.
pub fn lists(names: &Vec<String>, name: &str) -> (r: bool)
    ensures
        r == texts(names@).contains(name@),
{
    let mut i: usize = 0;
    while i < names.len()
        invariant
            i <= names.len(),
            forall|j: int| 0 <= j < i ==> texts(names@)[j] != name@,
        decreases names.len() - i,
    {
        if same_text(names[i].as_str(), name) {
            assert(texts(names@)[i as int] == name@);
            return true;
        }
        i += 1;
    }
    false
}

/// Plans the transfer of every one of `files` from the directory `main` to the
/// directory `branch`.
pub fn plan_transfers(main: &str, branch: &str, files: &Vec<String>, mark: bool) -> (r: Vec<
    Transfer,
>)
    ensures
        transfers(r@) == transfers_of(main@, branch@, texts(files@), mark),
{
    let mut r: Vec<Transfer> = Vec::new();
    let mut i: usize = 0;
    while i < files.len()
        invariant
            i <= files.len(),
            transfers(r@) == transfers_of(main@, branch@, texts(files@).take(i as int), mark),
        decreases files.len() - i,
    {
        let from = join(main, files[i].as_str());
        let to = join(branch, files[i].as_str());
        let marks = if mark {
            git_silent_add_file(to.as_str())
        } else {
            Vec::new()
        };
        let ghost before = transfers(r@);
        assert(!mark ==> commands(marks@) =~= Seq::empty());
        let t = Transfer { from, to, marks };
        assert(t@ == transfer_of(main@, branch@, files[i as int]@, mark));
        r.push(t);
        assert(transfers(r@) == before.push(t@));
        assert(texts(files@).take(i + 1) == texts(files@).take(i as int).push(files[i as int]@));
        i += 1;
    }
    assert(texts(files@).take(files.len() as int) == texts(files@));
    r
}

/// Goes on with what follows a clone.
fn resume(state: State) -> (r: (State, Action))
    ensures
        views(r) == after_clone(state@),
{
    match state.resume {
        Resume::Finish => {
            let path = state.main_path();
            state.finish(path)
        },
        Resume::Checkout => state.begin_checkout(),
        Resume::CheckoutTarget => {
            let path = state.branch_path();
            state.probe(Phase::Checkout(CheckoutPhase::Target), path)
        },
    }
}

/// Takes the default branch from the description `output` of the remote; the
/// session ends where the description names none.
fn with_default_branch(state: State, output: &str) -> (r: Result<State, (State, Action)>)
    ensures
        match r {
            Ok(t) => default_branch(output@) matches Some(b) && t@ == (StateView {
                main_branch: b,
                ..state@
            }),
            Err(failed) => default_branch(output@) is None && views(failed) == state@.fail(
                Failure::RemoteLookupFailure,
            ),
        },
{
    match get_default_branch_with_git(output) {
        Some(main_branch) => Ok(State { main_branch, ..state }),
        None => Err(state.fail(Failure::RemoteLookupFailure)),
    }
}

/// Takes a clone one step further.
pub fn clone_repo(state: State, phase: ClonePhase, event: Event) -> (r: (State, Action))
    ensures
        views(r) == clone_step(state@, phase, event@),
{
    match phase {
        ClonePhase::Owner => match event {
            Event::Status { code } => if check_github_user_exists(code) {
                state.begin_clone()
            } else {
                state.fail(Failure::RemoteLookupFailure)
            },
            _ => state.fail(Failure::RemoteLookupFailure),
        },
        ClonePhase::Target => match event {
            Event::Probed { exists } => if exists {
                state.fail(Failure::AlreadyExists)
            } else {
                state.git(Phase::Clone(ClonePhase::Git), None, check_git_installed())
            },
            _ => state.fail(Failure::WorkspaceCorruption),
        },
        ClonePhase::Git => match event {
            Event::Output { .. } => {
                let path = state.repo_path();
                (
                    State { phase: Phase::Clone(ClonePhase::Directories), ..state },
                    Action::CreateDirs { path },
                )
            },
            _ => state.fail(Failure::EnvironmentMissing),
        },
        ClonePhase::Directories => match event {
            Event::Done => {
                let args = git_remote_show_command(state.info.url.as_str());
                state.git(Phase::Clone(ClonePhase::DefaultBranch), None, args)
            },
            _ => state.fail(Failure::WorkspaceCorruption),
        },
        ClonePhase::DefaultBranch => match event {
            Event::Output { stdout, .. } => match with_default_branch(state, stdout.as_str()) {
                Ok(t) => {
                    let path = t.main_path();
                    let args = git_clone_command(t.info.url.as_str(), path.as_str());
                    t.git(Phase::Clone(ClonePhase::Fetch), None, args)
                },
                Err(failed) => failed,
            },
            _ => state.fail(Failure::RemoteLookupFailure),
        },
        ClonePhase::Fetch => match event {
            Event::Output { success: true, .. } => {
                let main = state.main_path();
                state.probe(Phase::Clone(ClonePhase::Environment), join(main.as_str(), ".envrc"))
            },
            _ => state.fail(Failure::RemoteLookupFailure),
        },
        ClonePhase::Environment => match event {
            Event::Probed { exists: true } => {
                let dir = state.main_path();
                (State { phase: Phase::Clone(ClonePhase::Allow), ..state }, Action::Direnv { dir })
            },
            _ => resume(state),
        },
        ClonePhase::Allow => resume(state),
    }
}

/// Goes on to the listing of the untracked files.
fn to_untracked(state: State) -> (r: (State, Action))
    ensures
        views(r) == list_untracked(state@),
{
    let dir = state.main_path();
    state.git(Phase::Checkout(CheckoutPhase::Untracked), Some(dir), git_untracked_files_command())
}

/// Goes on to the copying of `files`.
fn to_copies(state: State, phase: CheckoutPhase, files: Vec<String>, mark: bool) -> (r: (
    State,
    Action,
))
    ensures
        views(r) == (
            state@.at(checking_out(phase)),
            ActionView::CopyFiles {
                dir: state@.branch_path(),
                transfers: transfers_of(
                    state@.main_path(),
                    state@.branch_path(),
                    texts(files@),
                    mark,
                ),
            },
        ),
{
    let main = state.main_path();
    let dir = state.branch_path();
    let transfers = plan_transfers(main.as_str(), dir.as_str(), &files, mark);
    (State { phase: Phase::Checkout(phase), ..state }, Action::CopyFiles { dir, transfers })
}

/// Takes a checkout one step further.
pub fn checkout_branch(state: State, phase: CheckoutPhase, event: Event) -> (r: (State, Action))
    ensures
        views(r) == checkout_step(state@, phase, event@),
{
    match phase {
        CheckoutPhase::Repository => match event {
            Event::Probed { exists } => if exists {
                let path = state.branch_path();
                state.probe(Phase::Checkout(CheckoutPhase::Target), path)
            } else {
                State { resume: Resume::CheckoutTarget, ..state }.begin_clone()
            },
            _ => state.fail(Failure::WorkspaceCorruption),
        },
        CheckoutPhase::Target => match event {
            Event::Probed { exists } => if exists {
                let path = state.branch_path();
                state.finish(path)
            } else {
                state.git(Phase::Checkout(CheckoutPhase::Git), None, check_git_installed())
            },
            _ => state.fail(Failure::WorkspaceCorruption),
        },
        CheckoutPhase::Git => match event {
            Event::Output { .. } => {
                let args = git_remote_show_command(state.info.url.as_str());
                state.git(Phase::Checkout(CheckoutPhase::DefaultBranch), None, args)
            },
            _ => state.fail(Failure::EnvironmentMissing),
        },
        CheckoutPhase::DefaultBranch => match event {
            Event::Output { stdout, .. } => match with_default_branch(state, stdout.as_str()) {
                Ok(t) => {
                    let path = t.main_path();
                    t.probe(Phase::Checkout(CheckoutPhase::MainDirectory), path)
                },
                Err(failed) => failed,
            },
            _ => state.fail(Failure::RemoteLookupFailure),
        },
        CheckoutPhase::MainDirectory => match event {
            Event::Probed { exists: true } => {
                let dir = state.main_path();
                state.git(Phase::Checkout(CheckoutPhase::Pull), Some(dir), git_pull_command())
            },
            _ => state.fail(Failure::WorkspaceCorruption),
        },
        CheckoutPhase::Pull => {
            let dir = state.main_path();
            state.git(
                Phase::Checkout(CheckoutPhase::RemoteBranches),
                Some(dir),
                git_remote_branches_command(),
            )
        },
        CheckoutPhase::RemoteBranches => match event {
            Event::Output { stdout, .. } => {
                let remote_branches = git_get_remote_branches_command(stdout.as_str());
                let new_branch = !lists(&remote_branches, state.branch.as_str());
                let args = git_checkout_worktree(state.branch.as_str(), new_branch);
                let dir = state.main_path();
                state.git(Phase::Checkout(CheckoutPhase::Worktree), Some(dir), args)
            },
            _ => state.fail(Failure::EnvironmentMissing),
        },
        CheckoutPhase::Worktree => {
            let main = state.main_path();
            state.probe(
                Phase::Checkout(CheckoutPhase::Modules),
                join(main.as_str(), "node_modules"),
            )
        },
        CheckoutPhase::Modules => match event {
            Event::Probed { exists: true } => {
                let main = state.main_path();
                let branch = state.branch_path();
                (
                    State { phase: Phase::Checkout(CheckoutPhase::CopyModules), ..state },
                    Action::CopyTree {
                        from: join(main.as_str(), "node_modules"),
                        to: join(branch.as_str(), "node_modules"),
                    },
                )
            },
            _ => to_untracked(state),
        },
        CheckoutPhase::CopyModules => to_untracked(state),
        CheckoutPhase::Untracked => match event {
            Event::Output { stdout, .. } => {
                let files = git_get_untracked_files(stdout.as_str());
                to_copies(state, CheckoutPhase::CopyUntracked, files, false)
            },
            _ => state.fail(Failure::EnvironmentMissing),
        },
        CheckoutPhase::CopyUntracked => {
            let dir = state.main_path();
            state.git(
                Phase::Checkout(CheckoutPhase::Tagged),
                Some(dir),
                git_tagged_files_command(),
            )
        },
        CheckoutPhase::Tagged => match event {
            Event::Output { stdout, .. } => {
                let files = git_get_silently_added_files(stdout.as_str());
                to_copies(state, CheckoutPhase::CopyTagged, files, true)
            },
            _ => state.fail(Failure::EnvironmentMissing),
        },
        CheckoutPhase::CopyTagged => {
            let branch = state.branch_path();
            state.probe(
                Phase::Checkout(CheckoutPhase::Environment),
                join(branch.as_str(), ".envrc"),
            )
        },
        CheckoutPhase::Environment => match event {
            Event::Probed { exists: true } => {
                let dir = state.branch_path();
                (
                    State { phase: Phase::Checkout(CheckoutPhase::Allow), ..state },
                    Action::Direnv { dir },
                )
            },
            _ => {
                let path = state.branch_path();
                state.finish(path)
            },
        },
        CheckoutPhase::Allow => {
            let path = state.branch_path();
            state.finish(path)
        },
    }
}

} // verus!
