//! What holds of every reference, every workspace and every session.

use crate::git::{
    default_branch, is_relative, lemma_names_are_relative, named_in, remote_show_args,
    silent_add_args, worktree_args, Listing,
};
use crate::index::{
    dirs_under, lemma_filter_first, lemma_filter_twice, matching_branch_dirs,
    matching_owner_dirs, matching_repo_dirs, DirEntryView,
};
use crate::materialize::{after_clone, checkout_step, clone_step};
use crate::reference::{
    after_git_user, classification, ssh_url, three_segments, two_segments, without_git_suffix,
    ConfigView, ParseError, ReferenceView, RepoInfoView,
};
use crate::resolver::{
    index_of, resolve_three, workspace_or_branch, workspace_with_branch, ResolutionView,
    MAX_DEPTH, REPO_DEPTH,
};
use crate::session::{
    first_step, next_step, walk_step, ActionView, CheckoutPhase, ClonePhase, EventView, Failure,
    Phase, Resume, StateView,
};
use crate::text::{
    first_index, is_segment, is_segment_char, join_path, lemma_first_index,
    lemma_first_index_is, lemma_join_keeps_the_name, lemma_segment_has_no_slash,
    lemma_split_head, lemma_split_one, split,
};
use vstd::prelude::*;

verus! {

/// The entry of the repository `owner/name`: a directory at depth 2 with these
/// two names.
pub open spec fn is_repo_dir(d: DirEntryView, owner: Seq<char>, name: Seq<char>) -> bool {
    d.is_dir && d.names == seq![owner, name]
}

/// The entry of the branch `branch` of the repository `owner/name`: a directory
/// at depth 3 with these three names.
pub open spec fn is_branch_dir(
    d: DirEntryView,
    owner: Seq<char>,
    name: Seq<char>,
    branch: Seq<char>,
) -> bool {
    d.is_dir && d.names == seq![owner, name, branch]
}

/// `i` is the first place in `walk` at which `pred` holds.
pub open spec fn is_first(
    walk: Seq<DirEntryView>,
    pred: spec_fn(DirEntryView) -> bool,
    i: int,
) -> bool {
    &&& 0 <= i < walk.len()
    &&& pred(walk[i])
    &&& forall|k: int| 0 <= k < i ==> !pred(#[trigger] walk[k])
}

/// The repositories of `owner` that are called `name`, among the directories of
/// the index, begin with the first entry of the repository in the walk.
proof fn lemma_repository_found(
    walk: Seq<DirEntryView>,
    owner: Seq<char>,
    name: Seq<char>,
    i: int,
)
    requires
        is_first(walk, |d: DirEntryView| is_repo_dir(d, owner, name), i),
    ensures
        matching_owner_dirs(index_of(walk), owner).len() > 0,
        matching_repo_dirs(matching_owner_dirs(index_of(walk), owner), name).len() > 0,
        matching_repo_dirs(matching_owner_dirs(index_of(walk), owner), name)[0] == walk[i],
{
    let in_index = |d: DirEntryView| d.is_dir_within(REPO_DEPTH as nat, MAX_DEPTH as nat);
    let owned = |d: DirEntryView| d.is_owned_by(owner);
    let named = |d: DirEntryView| d.is_repo(name);
    let in_owned = |d: DirEntryView| in_index(d) && owned(d);
    let all = |d: DirEntryView| in_owned(d) && named(d);
    lemma_filter_twice(walk, in_index, owned);
    lemma_filter_twice(walk, in_owned, named);
    assert(all(walk[i]));
    assert forall|k: int| 0 <= k < i implies !all(#[trigger] walk[k]) by {
        if all(walk[k]) {
            assert(walk[k].names =~= seq![owner, name]);
        }
    }
    lemma_filter_first(walk, all, i);
    assert(walk.filter(in_owned).filter(named).len() > 0);
    walk.filter(in_owned).lemma_filter_len(named);
}

/// A two-segment reference to a repository whose directory is there, the first
/// of them in the walk, resolves to the directory of the repository's default
/// branch below that directory. The session asks for the walk, then for the
/// description of the remote, which names the default branch, and then gives
/// this path as its result: it asks for nothing else, so that nothing is cloned,
/// pulled or checked out. Where the description names no branch, the session
/// fails.
pub proof fn law_existing_repository_is_returned(
    cfg: ConfigView,
    search: Seq<char>,
    walk: Seq<DirEntryView>,
    owner: Seq<char>,
    name: Seq<char>,
    i: int,
    stdout: Seq<char>,
    success: bool,
)
    requires
        two_segments(search) == Some((owner, name)),
        is_first(walk, |d: DirEntryView| is_repo_dir(d, owner, name), i),
    ensures
        workspace_or_branch(cfg, search, walk) == Ok::<ResolutionView, ParseError>(
            ResolutionView::Repository {
                info: RepoInfoView::on_default_host(cfg, owner, name),
                path: walk[i].path,
            },
        ),
        first_step(cfg, search).1 is Scan,
        ({
            let found = next_step(first_step(cfg, search).0, EventView::Scanned { walk });
            let end = next_step(found.0, EventView::Output { stdout, success });
            &&& found.1 == ActionView::Git {
                cwd: None,
                args: remote_show_args(ssh_url(cfg.default_domain, owner, name)),
            }
            &&& end.0.phase == Phase::Over
            &&& end.1 == match default_branch(stdout) {
                Some(main_branch) => ActionView::Finish {
                    path: join_path(walk[i].path, main_branch),
                },
                None => ActionView::Fail { error: Failure::RemoteLookupFailure },
            }
        }),
{
    lemma_repository_found(walk, owner, name, i);
}

/// A three-segment reference to a branch whose directory is there, below the
/// directory of its repository, resolves to the path of the branch's directory
/// as the walk gave it. The session asks for the walk and then gives this path as
/// its result: it asks for nothing else, however often this is repeated.
pub proof fn law_existing_branch_is_returned(
    cfg: ConfigView,
    search: Seq<char>,
    walk: Seq<DirEntryView>,
    owner: Seq<char>,
    name: Seq<char>,
    branch: Seq<char>,
    i: int,
    j: int,
)
    requires
        three_segments(search) == Some((owner, name, branch)),
        is_first(walk, |d: DirEntryView| is_repo_dir(d, owner, name), i),
        is_first(walk, |d: DirEntryView| is_branch_dir(d, owner, name, branch), j),
    ensures
        workspace_with_branch(cfg, search, walk) == Ok::<ResolutionView, ParseError>(
            ResolutionView::Existing { path: walk[j].path },
        ),
        first_step(cfg, search).1 is Scan,
        next_step(first_step(cfg, search).0, EventView::Scanned { walk }).1 == (ActionView::Finish {
            path: walk[j].path,
        }),
        next_step(first_step(cfg, search).0, EventView::Scanned { walk }).0.phase == Phase::Over,
{
    lemma_repository_found(walk, owner, name, i);
    let repo = walk[i];
    let in_index = |d: DirEntryView| d.is_dir_within(REPO_DEPTH as nat, MAX_DEPTH as nat);
    let below = |d: DirEntryView| d.is_child_of(repo);
    let named = |d: DirEntryView| d.is_branch(branch);
    let in_repo = |d: DirEntryView| in_index(d) && below(d);
    let all = |d: DirEntryView| in_repo(d) && named(d);
    lemma_filter_twice(walk, in_index, below);
    lemma_filter_twice(walk, in_repo, named);
    assert(all(walk[j])) by {
        assert(walk[j].names.drop_last() =~= repo.names);
    }
    assert forall|k: int| 0 <= k < j implies !all(#[trigger] walk[k]) by {
        if all(walk[k]) {
            let d = walk[k];
            assert(d.names.drop_last()[0] == d.names[0]);
            assert(d.names.drop_last()[1] == d.names[1]);
            assert(d.names =~= seq![owner, name, branch]);
        }
    }
    lemma_filter_first(walk, all, j);
    assert(matching_branch_dirs(dirs_under(index_of(walk), repo), branch) == walk.filter(all));
    assert(resolve_three(cfg, index_of(walk), owner, name, branch)
        == ResolutionView::Existing { path: walk[j].path });
    law_shapes_are_apart(search);
}

/// A walk that fails ends the session: nothing is taken from a walk of which a
/// part is missing. Whatever comes in place of the entries, the session fails
/// with `WorkspaceCorruption`.
pub proof fn law_failed_walk_ends_the_session(s: StateView, with_branch: bool, e: EventView)
    requires
        s.phase == (Phase::Walk { with_branch }),
        !(e is Scanned),
    ensures
        next_step(s, e) == s.fail(Failure::WorkspaceCorruption),
        next_step(s, e).1 == (ActionView::Fail { error: Failure::WorkspaceCorruption }),
        next_step(s, e).0.phase == Phase::Over,
{
}

/// Every clone begins with a look at the directory that it would fill, and where
/// something is there the session ends with `AlreadyExists`: nothing has been
/// made, fetched or written by then.
pub proof fn law_clone_never_overwrites(s: StateView)
    ensures
        s.begin_clone().1 == (ActionView::Probe { path: s.repo_path() }),
        next_step(s.begin_clone().0, EventView::Probed { exists: true }).1 == (ActionView::Fail {
            error: Failure::AlreadyExists,
        }),
        next_step(s.begin_clone().0, EventView::Probed { exists: true }).0.phase == Phase::Over,
{
}

/// The worktree of a branch tracks the remote branch where the listing of the
/// remote branches names the branch, and is made with a new branch where it does
/// not; the two ways differ, so that it is always exactly one of them.
pub proof fn law_worktree_mode(s: StateView, stdout: Seq<char>, success: bool)
    requires
        s.phase == Phase::Checkout(CheckoutPhase::RemoteBranches),
    ensures
        named_in(Listing::RemoteBranches, stdout).contains(s.branch) ==> next_step(
            s,
            EventView::Output { stdout, success },
        ).1 == (ActionView::Git {
            cwd: Some(s.main_path()),
            args: worktree_args(s.branch, false),
        }),
        !named_in(Listing::RemoteBranches, stdout).contains(s.branch) ==> next_step(
            s,
            EventView::Output { stdout, success },
        ).1 == (ActionView::Git { cwd: Some(s.main_path()), args: worktree_args(s.branch, true) }),
        worktree_args(s.branch, false) != worktree_args(s.branch, true),
{
    assert(worktree_args(s.branch, false).len() == 4);
    assert(worktree_args(s.branch, true).len() == 5);
}

/// Every file that git reports as untracked in the directory of the default
/// branch is copied to the new branch, from its place below the one directory to
/// the same place below the other.
pub proof fn law_untracked_files_are_copied(
    s: StateView,
    stdout: Seq<char>,
    success: bool,
    i: int,
)
    requires
        s.phase == Phase::Checkout(CheckoutPhase::Untracked),
        0 <= i < named_in(Listing::Untracked, stdout).len(),
    ensures
        is_relative(named_in(Listing::Untracked, stdout)[i]),
        next_step(s, EventView::Output { stdout, success }).1 matches ActionView::CopyFiles {
            dir,
            transfers,
        } && dir == s.branch_path() && transfers.len() == named_in(
            Listing::Untracked,
            stdout,
        ).len() && transfers[i].from == join_path(
            s.main_path(),
            named_in(Listing::Untracked, stdout)[i],
        ) && transfers[i].to == join_path(
            s.branch_path(),
            named_in(Listing::Untracked, stdout)[i],
        ) && s.main_path().is_prefix_of(transfers[i].from) && s.branch_path().is_prefix_of(
            transfers[i].to,
        ) && named_in(Listing::Untracked, stdout)[i].is_suffix_of(transfers[i].from) && named_in(
            Listing::Untracked,
            stdout,
        )[i].is_suffix_of(transfers[i].to),
{
    let file = named_in(Listing::Untracked, stdout)[i];
    lemma_names_are_relative(Listing::Untracked, split(stdout, '\n'), i);
    lemma_join_keeps_the_name(s.main_path(), file);
    lemma_join_keeps_the_name(s.branch_path(), file);
}

/// Every file that git reports as assumed unchanged in the directory of the
/// default branch is copied to the same place below the directory of the new
/// branch, and the copy is then put into the index of the new branch and marked
/// there as assumed unchanged and to be skipped.
pub proof fn law_silently_added_files_are_marked(
    s: StateView,
    stdout: Seq<char>,
    success: bool,
    i: int,
)
    requires
        s.phase == Phase::Checkout(CheckoutPhase::Tagged),
        0 <= i < named_in(Listing::Tagged, stdout).len(),
    ensures
        is_relative(named_in(Listing::Tagged, stdout)[i]),
        next_step(s, EventView::Output { stdout, success }).1 matches ActionView::CopyFiles {
            dir,
            transfers,
        } && dir == s.branch_path() && transfers.len() == named_in(Listing::Tagged, stdout).len()
            && transfers[i].from == join_path(
            s.main_path(),
            named_in(Listing::Tagged, stdout)[i],
        ) && transfers[i].to == join_path(s.branch_path(), named_in(Listing::Tagged, stdout)[i])
            && transfers[i].marks == silent_add_args(transfers[i].to)
            && transfers[i].marks[1] == seq![
            "update-index"@,
            "--skip-worktree"@,
            "--assume-unchanged"@,
            transfers[i].to,
        ] && s.branch_path().is_prefix_of(transfers[i].to) && named_in(
            Listing::Tagged,
            stdout,
        )[i].is_suffix_of(transfers[i].to),
{
    let file = named_in(Listing::Tagged, stdout)[i];
    lemma_names_are_relative(Listing::Tagged, split(stdout, '\n'), i);
    lemma_join_keeps_the_name(s.branch_path(), file);
}

/// A text is `owner/name` exactly where it is made of a segment, one `/` and a
/// segment; the two segments are then what it names.
pub proof fn law_two_segments(s: Seq<char>, owner: Seq<char>, name: Seq<char>)
    ensures
        two_segments(s) == Some((owner, name)) <==> is_segment(owner) && is_segment(name) && s
            == owner + seq!['/'] + name,
{
    if is_segment(owner) && is_segment(name) && s == owner + seq!['/'] + name {
        lemma_segment_has_no_slash(owner);
        lemma_segment_has_no_slash(name);
        lemma_split_head(owner, name, '/');
        assert(split(s, '/') == seq![owner, name]);
    }
    if two_segments(s) == Some((owner, name)) {
        lemma_first_index(s, '/');
        let i = first_index(s, '/');
        let rest = s.skip(i + 1);
        lemma_split_one(s, '/');
        lemma_split_one(rest, '/');
        assert(split(s, '/')[1] == split(rest, '/')[0]);
        assert(s == s.take(i) + seq!['/'] + rest);
    }
}

/// A text is `owner/name/branch` exactly where it is made of three segments with
/// one `/` between each two; the three segments are then what it names.
pub proof fn law_three_segments(
    s: Seq<char>,
    owner: Seq<char>,
    name: Seq<char>,
    branch: Seq<char>,
)
    ensures
        three_segments(s) == Some((owner, name, branch)) <==> is_segment(owner) && is_segment(
            name,
        ) && is_segment(branch) && s == owner + seq!['/'] + name + seq!['/'] + branch,
{
    if is_segment(owner) && is_segment(name) && is_segment(branch) && s == owner + seq!['/']
        + name + seq!['/'] + branch {
        lemma_segment_has_no_slash(owner);
        lemma_segment_has_no_slash(name);
        lemma_segment_has_no_slash(branch);
        lemma_split_head(name, branch, '/');
        lemma_split_head(owner, name + seq!['/'] + branch, '/');
        assert(s == owner + seq!['/'] + (name + seq!['/'] + branch));
        assert(split(s, '/') == seq![owner, name, branch]);
    }
    if three_segments(s) == Some((owner, name, branch)) {
        lemma_first_index(s, '/');
        lemma_split_one(s, '/');
        let i = first_index(s, '/');
        let rest = s.skip(i + 1);
        lemma_first_index(rest, '/');
        lemma_split_one(rest, '/');
        let j = first_index(rest, '/');
        let last = rest.skip(j + 1);
        lemma_split_one(last, '/');
        assert(split(s, '/')[1] == split(rest, '/')[0]);
        assert(split(s, '/')[2] == split(rest, '/')[1]);
        assert(split(rest, '/')[1] == split(last, '/')[0]);
        assert(rest == rest.take(j) + seq!['/'] + last);
        assert(s == s.take(i) + seq!['/'] + rest);
        assert(s == owner + seq!['/'] + name + seq!['/'] + branch);
    }
}

/// The names of a reference are never taken for one another: no text is both
/// `owner/name` and `owner/name/branch`.
pub proof fn law_shapes_are_apart(s: Seq<char>)
    ensures
        !(two_segments(s) is Some && three_segments(s) is Some),
{
}

/// A text that holds a character which is neither `/` nor a segment character is
/// neither `owner/name` nor `owner/name/branch`.
pub proof fn lemma_strange_character(s: Seq<char>, i: int)
    requires
        0 <= i < s.len(),
        s[i] != '/',
        !is_segment_char(s[i]),
    ensures
        two_segments(s) is None,
        three_segments(s) is None,
{
    if let Some((owner, name)) = two_segments(s) {
        law_two_segments(s, owner, name);
        if i < owner.len() {
            assert(s[i] == owner[i]);
        } else {
            assert(s[i] == name[i - owner.len() - 1]);
        }
    }
    if let Some((owner, name, branch)) = three_segments(s) {
        law_three_segments(s, owner, name, branch);
        if i < owner.len() {
            assert(s[i] == owner[i]);
        } else if i < owner.len() + 1 + name.len() {
            assert(s[i] == name[i - owner.len() - 1]);
        } else {
            assert(s[i] == branch[i - owner.len() - name.len() - 2]);
        }
    }
}

/// The address of `owner/name` at `host` for the user `git` or, with `gitea`, for
/// the user `gitea`; with `suffix`, it ends in `.git`.
pub open spec fn remote_address(
    gitea: bool,
    host: Seq<char>,
    owner: Seq<char>,
    name: Seq<char>,
    suffix: bool,
) -> Seq<char> {
    (if gitea {
        "gitea@"@
    } else {
        "git@"@
    }) + host + ":"@ + owner + "/"@ + name + (if suffix {
        ".git"@
    } else {
        Seq::empty()
    })
}

/// Every git remote address of a repository is read as what it says: the host,
/// which is not empty and holds no `:`, the owner and the name. Where the address
/// does not end in `.git` of its own, the name must not end in `.git` either,
/// which would be taken for the ending of the address.
pub proof fn law_git_remote_address(
    gitea: bool,
    host: Seq<char>,
    owner: Seq<char>,
    name: Seq<char>,
    suffix: bool,
)
    requires
        host.len() > 0,
        !host.contains(':'),
        is_segment(owner),
        is_segment(name),
        suffix || !".git"@.is_suffix_of(name),
    ensures
        classification(remote_address(gitea, host, owner, name, suffix)) == Ok::<
            ReferenceView,
            ParseError,
        >(ReferenceView::RemoteUrl { domain: host, owner, name }),
{
    reveal_strlit("git@");
    reveal_strlit("gitea@");
    reveal_strlit(":");
    reveal_strlit("/");
    reveal_strlit(".git");
    let s = remote_address(gitea, host, owner, name, suffix);
    let user = if gitea {
        "gitea@"@
    } else {
        "git@"@
    };
    let ending = if suffix {
        ".git"@
    } else {
        Seq::<char>::empty()
    };
    let short = owner + "/"@ + name;
    let path = short + ending;
    let rest = host + ":"@ + path;
    assert(s == user + rest);
    assert(s[user.len() - 1] == '@');
    lemma_strange_character(s, user.len() - 1);
    assert(user.is_prefix_of(s)) by {
        assert(s.subrange(0, user.len() as int) == user);
    }
    if gitea {
        assert(!"git@"@.is_prefix_of(s)) by {
            assert(s[3] == 'e');
            if "git@"@.is_prefix_of(s) {
                assert(s.subrange(0, 4)[3] == '@');
            }
        }
    }
    assert(after_git_user(s) == Some(rest)) by {
        assert(s.skip(user.len() as int) == rest);
    }
    assert forall|j: int| 0 <= j < host.len() implies rest[j] != ':' by {
        assert(rest[j] == host[j]);
        assert(host.contains(host[j]));
    }
    lemma_first_index_is(rest, ':', host.len() as int);
    assert(rest.take(host.len() as int) == host);
    assert(rest.skip(host.len() as int + 1) == path);
    assert(without_git_suffix(path) == short) by {
        if suffix {
            assert(path.subrange(path.len() - 4, path.len() as int) == ".git"@);
            assert(path.take(path.len() - 4) == short);
        } else {
            assert(path == short);
            if ".git"@.is_suffix_of(short) {
                let tail = short.subrange(short.len() - 4, short.len() as int);
                if name.len() >= 4 {
                    assert(name.subrange(name.len() - 4, name.len() as int) == tail);
                } else {
                    let k = 3 - name.len();
                    assert(tail[k] == short[owner.len() as int]);
                    assert(tail[k] == '/');
                }
            }
        }
    }
    assert("/"@ == seq!['/']);
    law_two_segments(short, owner, name);
}

/// The repository of a resolution is named by two segments and is fetched from
/// the address that the default host gives it; the branch of a three-segment
/// reference is a segment too.
pub open spec fn names_a_repository(cfg: ConfigView, r: ResolutionView) -> bool {
    match r {
        ResolutionView::Existing { .. } => true,
        ResolutionView::Repository { info, .. } => info.wf() && info
            == RepoInfoView::on_default_host(cfg, info.owner, info.name),
        ResolutionView::Clone { info, .. } => info.wf() && info == RepoInfoView::on_default_host(
            cfg,
            info.owner,
            info.name,
        ),
        ResolutionView::CloneAndCheckout { info, branch } => info.wf() && is_segment(branch)
            && info == RepoInfoView::on_default_host(cfg, info.owner, info.name),
        ResolutionView::Checkout { info, branch } => info.wf() && is_segment(branch) && info
            == RepoInfoView::on_default_host(cfg, info.owner, info.name),
    }
}

/// Whatever the workspace holds, a reference resolves to a repository whose owner
/// and name are segments and whose address is `git@{domain}:{owner}/{name}.git`
/// on the default host.
pub proof fn law_resolutions_name_repositories(
    cfg: ConfigView,
    search: Seq<char>,
    walk: Seq<DirEntryView>,
)
    ensures
        workspace_or_branch(cfg, search, walk) matches Ok(r) ==> names_a_repository(cfg, r),
        workspace_with_branch(cfg, search, walk) matches Ok(r) ==> names_a_repository(cfg, r),
{
}

/// How many answers a checkout can take at most before the session is over.
pub open spec fn checkout_steps_left(phase: CheckoutPhase) -> nat {
    match phase {
        CheckoutPhase::Repository => 23,
        CheckoutPhase::Target => 15,
        CheckoutPhase::Git => 14,
        CheckoutPhase::DefaultBranch => 13,
        CheckoutPhase::MainDirectory => 12,
        CheckoutPhase::Pull => 11,
        CheckoutPhase::RemoteBranches => 10,
        CheckoutPhase::Worktree => 9,
        CheckoutPhase::Modules => 8,
        CheckoutPhase::CopyModules => 7,
        CheckoutPhase::Untracked => 6,
        CheckoutPhase::CopyUntracked => 5,
        CheckoutPhase::Tagged => 4,
        CheckoutPhase::CopyTagged => 3,
        CheckoutPhase::Environment => 2,
        CheckoutPhase::Allow => 1,
    }
}

/// How many answers a clone can take at most before it is done.
pub open spec fn clone_steps_left(phase: ClonePhase) -> nat {
    match phase {
        ClonePhase::Owner => 8,
        ClonePhase::Target => 7,
        ClonePhase::Git => 6,
        ClonePhase::Directories => 5,
        ClonePhase::DefaultBranch => 4,
        ClonePhase::Fetch => 3,
        ClonePhase::Environment => 2,
        ClonePhase::Allow => 1,
    }
}

/// How many answers a session can take at most before it is over.
pub open spec fn steps_left(s: StateView) -> nat {
    match s.phase {
        Phase::Walk { .. } => 32,
        Phase::Locate => 1,
        Phase::Clone(phase) => clone_steps_left(phase) + match s.resume {
            Resume::Finish => 0nat,
            Resume::CheckoutTarget => checkout_steps_left(CheckoutPhase::Target),
            Resume::Checkout => checkout_steps_left(CheckoutPhase::Repository),
        },
        Phase::Checkout(phase) => checkout_steps_left(phase),
        Phase::Over => 0,
    }
}

/// The action of a session that is over says how it ended.
pub open spec fn is_verdict(r: (StateView, ActionView)) -> bool {
    r.0.phase == Phase::Over ==> r.1 == r.0.verdict()
}

/// Whatever the index gave, what follows is nearer to the end than the walk.
proof fn lemma_resolved_is_nearer(s: StateView, r: Result<ResolutionView, ParseError>)
    ensures
        steps_left(s.resolved(r).0) <= 30,
        is_verdict(s.resolved(r)),
{
}

/// A step of a session that waits for the walk.
proof fn lemma_walk_step(s: StateView, with_branch: bool, e: EventView)
    ensures
        steps_left(walk_step(s, with_branch, e).0) <= 30,
        is_verdict(walk_step(s, with_branch, e)),
{
    match e {
        EventView::Scanned { walk } => {
            if with_branch {
                lemma_resolved_is_nearer(s, workspace_with_branch(s.cfg, s.search, walk));
            } else {
                lemma_resolved_is_nearer(s, workspace_or_branch(s.cfg, s.search, walk));
            }
        },
        _ => {},
    }
}

/// A step of a clone.
proof fn lemma_clone_step(s: StateView, phase: ClonePhase, e: EventView)
    requires
        s.phase == Phase::Clone(phase),
    ensures
        steps_left(clone_step(s, phase, e).0) < steps_left(s) <= 31,
        is_verdict(clone_step(s, phase, e)),
{
    assert(steps_left(after_clone(s).0) < 1 + steps_left(s) - clone_steps_left(phase));
    assert(is_verdict(after_clone(s)));
}

/// A step of a checkout.
proof fn lemma_checkout_step(s: StateView, phase: CheckoutPhase, e: EventView)
    requires
        s.phase == Phase::Checkout(phase),
    ensures
        steps_left(checkout_step(s, phase, e).0) < steps_left(s) <= 23,
        is_verdict(checkout_step(s, phase, e)),
{
}

/// Every session ends: each answer brings it nearer to its end, whatever the
/// answer is, and it is over after 32 answers at most.
pub proof fn law_session_ends(s: StateView, e: EventView)
    requires
        s.phase != Phase::Over,
    ensures
        steps_left(next_step(s, e).0) < steps_left(s) <= 32,
        steps_left(next_step(s, e).0) == 0 <==> next_step(s, e).0.phase == Phase::Over,
{
    match s.phase {
        Phase::Walk { with_branch } => lemma_walk_step(s, with_branch, e),
        Phase::Locate => {},
        Phase::Clone(phase) => lemma_clone_step(s, phase, e),
        Phase::Checkout(phase) => lemma_checkout_step(s, phase, e),
        Phase::Over => {},
    }
}

/// A session that is over stays over, and gives its verdict again.
pub proof fn law_verdict_stands(s: StateView, e: EventView, f: EventView)
    requires
        next_step(s, e).0.phase == Phase::Over,
    ensures
        next_step(next_step(s, e).0, f) == next_step(s, e),
{
    match s.phase {
        Phase::Walk { with_branch } => lemma_walk_step(s, with_branch, e),
        Phase::Locate => {},
        Phase::Clone(phase) => lemma_clone_step(s, phase, e),
        Phase::Checkout(phase) => lemma_checkout_step(s, phase, e),
        Phase::Over => {},
    }
}

} // verus!
