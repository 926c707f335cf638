//! The entries of a walk of the workspace and the questions that are asked of them.

use crate::text::{chars_of, push_chars, same_text};
use vstd::prelude::*;

verus! {

/// One entry of a directory walk: its path, the names that lead to it from the
/// root of the walk, and whether it is a directory. The number of names is the
/// entry's depth.
pub struct DirEntry {
    pub path: String,
    pub names: Vec<String>,
    pub is_dir: bool,
}

pub struct DirEntryView {
    pub path: Seq<char>,
    pub names: Seq<Seq<char>>,
    pub is_dir: bool,
}

/// The views of a list of strings.
pub open spec fn texts(v: Seq<String>) -> Seq<Seq<char>> {
    v.map_values(|s: String| s@)
}

/// The views of a list of entries.
pub open spec fn entries(v: Seq<DirEntry>) -> Seq<DirEntryView> {
    v.map_values(|d: DirEntry| d@)
}

impl View for DirEntry {
    type V = DirEntryView;

    open spec fn view(&self) -> DirEntryView {
        DirEntryView { path: self.path@, names: texts(self.names@), is_dir: self.is_dir }
    }
}

impl DirEntryView {
    /// A repository directory of `owner`: at depth 2, below the directory `owner`.
    pub open spec fn is_owned_by(self, owner: Seq<char>) -> bool {
        self.names.len() == 2 && self.names[0] == owner
    }

    /// A repository directory called `repo`, whoever owns it.
    pub open spec fn is_repo(self, repo: Seq<char>) -> bool {
        self.names.len() == 2 && self.names[1] == repo
    }

    /// A branch directory called `branch`.
    pub open spec fn is_branch(self, branch: Seq<char>) -> bool {
        self.names.len() == 3 && self.names[2] == branch
    }

    /// Lies directly in `parent`.
    pub open spec fn is_child_of(self, parent: DirEntryView) -> bool {
        self.names.len() > 0 && self.names.drop_last() == parent.names
    }

    /// A directory at a depth from `min` to `max`.
    pub open spec fn is_dir_within(self, min: nat, max: nat) -> bool {
        self.is_dir && min <= self.names.len() <= max
    }
}

/// By what entries are chosen.
pub enum Criterion<'a> {
    /// The repository directories of an owner.
    Owner(&'a str),
    /// The repository directories of a name.
    Repo(&'a str),
    /// The branch directories of a name.
    Branch(&'a str),
    /// What lies directly in a directory.
    Under(&'a DirEntry),
    /// The directories at a depth from `min` to `max`.
    Directory { min: usize, max: usize },
}

pub enum CriterionView {
    Owner(Seq<char>),
    Repo(Seq<char>),
    Branch(Seq<char>),
    Under(DirEntryView),
    Directory { min: nat, max: nat },
}

impl View for Criterion<'_> {
    type V = CriterionView;

    open spec fn view(&self) -> CriterionView {
        match self {
            Criterion::Owner(name) => CriterionView::Owner(name@),
            Criterion::Repo(name) => CriterionView::Repo(name@),
            Criterion::Branch(name) => CriterionView::Branch(name@),
            Criterion::Under(parent) => CriterionView::Under(parent@),
            Criterion::Directory { min, max } => CriterionView::Directory {
                min: *min as nat,
                max: *max as nat,
            },
        }
    }
}

/// Whether `d` meets the criterion `by`.
pub open spec fn meets(d: DirEntryView, by: CriterionView) -> bool {
    match by {
        CriterionView::Owner(name) => d.is_owned_by(name),
        CriterionView::Repo(name) => d.is_repo(name),
        CriterionView::Branch(name) => d.is_branch(name),
        CriterionView::Under(parent) => d.is_child_of(parent),
        CriterionView::Directory { min, max } => d.is_dir_within(min, max),
    }
}

/// The entries of `dirs` that meet the criterion `by`, in the order of the walk.
pub open spec fn selected(dirs: Seq<DirEntryView>, by: CriterionView) -> Seq<DirEntryView> {
    dirs.filter(|d: DirEntryView| meets(d, by))
}

/// The repository directories of `owner` among `dirs`, in the order of the walk.
pub open spec fn matching_owner_dirs(dirs: Seq<DirEntryView>, owner: Seq<char>) -> Seq<
    DirEntryView,
> {
    dirs.filter(|d: DirEntryView| d.is_owned_by(owner))
}

/// The repository directories called `repo` among `dirs`, in the order of the walk.
pub open spec fn matching_repo_dirs(dirs: Seq<DirEntryView>, repo: Seq<char>) -> Seq<
    DirEntryView,
> {
    dirs.filter(|d: DirEntryView| d.is_repo(repo))
}

/// The branch directories called `branch` among `dirs`, in the order of the walk.
pub open spec fn matching_branch_dirs(dirs: Seq<DirEntryView>, branch: Seq<char>) -> Seq<
    DirEntryView,
> {
    dirs.filter(|d: DirEntryView| d.is_branch(branch))
}

/// The entries of `dirs` that lie directly in `parent`, in the order of the walk.
pub open spec fn dirs_under(dirs: Seq<DirEntryView>, parent: DirEntryView) -> Seq<
    DirEntryView,
> {
    dirs.filter(|d: DirEntryView| d.is_child_of(parent))
}

/// The directories of `walk` at a depth from `min` to `max`, in the order of the walk.
pub open spec fn directories_within(walk: Seq<DirEntryView>, min: nat, max: nat) -> Seq<
    DirEntryView,
> {
    walk.filter(|d: DirEntryView| d.is_dir_within(min, max))
}

/// Filtering a list that grew by one entry.
pub proof fn lemma_filter_push<A>(s: Seq<A>, x: A, pred: spec_fn(A) -> bool)
    ensures
        s.push(x).filter(pred) == if pred(x) {
            s.filter(pred).push(x)
        } else {
            s.filter(pred)
        },
{
    reveal(Seq::filter);
    assert(s.push(x).drop_last() == s);
}

/// Where nothing meets `pred`, the filter leaves nothing.
pub proof fn lemma_filter_none<A>(s: Seq<A>, pred: spec_fn(A) -> bool)
    requires
        forall|k: int| 0 <= k < s.len() ==> !pred(#[trigger] s[k]),
    ensures
        s.filter(pred).len() == 0,
    decreases s.len(),
{
    reveal(Seq::filter);
    if s.len() > 0 {
        lemma_filter_none(s.drop_last(), pred);
    }
}

/// The first entry that meets `pred` is the first that the filter leaves.
pub proof fn lemma_filter_first<A>(s: Seq<A>, pred: spec_fn(A) -> bool, i: int)
    requires
        0 <= i < s.len(),
        pred(s[i]),
        forall|k: int| 0 <= k < i ==> !pred(#[trigger] s[k]),
    ensures
        s.filter(pred).len() > 0,
        s.filter(pred)[0] == s[i],
    decreases s.len(),
{
    reveal(Seq::filter);
    let t = s.drop_last();
    if i == s.len() - 1 {
        lemma_filter_none(t, pred);
    } else {
        lemma_filter_first(t, pred, i);
    }
}

/// Filtering twice is filtering by both conditions.
pub proof fn lemma_filter_twice<A>(s: Seq<A>, p: spec_fn(A) -> bool, q: spec_fn(A) -> bool)
    ensures
        s.filter(p).filter(q) == s.filter(|x: A| p(x) && q(x)),
    decreases s.len(),
{
    let both = |x: A| p(x) && q(x);
    if s.len() == 0 {
        reveal(Seq::filter);
    } else {
        let t = s.drop_last();
        let x = s.last();
        lemma_filter_twice(t, p, q);
        assert(s == t.push(x));
        lemma_filter_push(t, x, p);
        lemma_filter_push(t, x, both);
        if p(x) {
            lemma_filter_push(t.filter(p), x, q);
        }
    }
}

/// A copy of a list of strings.
pub fn copy_texts(v: &Vec<String>) -> (r: Vec<String>)
    ensures
        r@ == v@,
{
    let mut r: Vec<String> = Vec::new();
    let mut i: usize = 0;
    while i < v.len()
        invariant
            i <= v.len(),
            r@ == v@.take(i as int),
        decreases v.len() - i,
    {
        r.push(v[i].clone());
        assert(v@.take(i + 1) == v@.take(i as int).push(v@[i as int]));
        i += 1;
    }
    assert(v@.take(v.len() as int) == v@);
    r
}

impl DirEntry {
    /// A copy of this entry.
    pub fn duplicate(&self) -> (r: DirEntry)
        ensures
            r@ == self@,
    {
        DirEntry { path: self.path.clone(), names: copy_texts(&self.names), is_dir: self.is_dir }
    }

    /// Decides whether the name at `position` is `name`, for an entry of depth `depth`.
    fn has_name_at(&self, depth: usize, position: usize, name: &str) -> (r: bool)
        requires
            position < depth,
        ensures
            r == (self@.names.len() == depth && self@.names[position as int] == name@),
    {
        self.names.len() == depth && same_text(self.names[position].as_str(), name)
    }

    /// Decides whether this entry meets the criterion `by`.
    pub fn meets(&self, by: &Criterion) -> (r: bool)
        ensures
            r == meets(self@, by@),
    {
        match by {
            Criterion::Owner(name) => self.has_name_at(2, 0, name),
            Criterion::Repo(name) => self.has_name_at(2, 1, name),
            Criterion::Branch(name) => self.has_name_at(3, 2, name),
            Criterion::Under(parent) => self.is_child_of(parent),
            Criterion::Directory { min, max } => self.is_dir && *min <= self.names.len()
                && self.names.len() <= *max,
        }
    }

    /// Decides whether this entry lies directly in `parent`.
    pub fn is_child_of(&self, parent: &DirEntry) -> (r: bool)
        ensures
            r == self@.is_child_of(parent@),
    {
        if self.names.len() == 0 || self.names.len() - 1 != parent.names.len() {
            assert(self@.names.len() > 0 ==> self@.names.drop_last().len() != parent@.names.len());
            return false;
        }
        let n = parent.names.len();
        let mut i: usize = 0;
        while i < n
            invariant
                i <= n,
                n == parent.names.len(),
                self.names.len() == n + 1,
                self@.names.drop_last().len() == n,
                forall|j: int| 0 <= j < i ==> self@.names[j] == parent@.names[j],
            decreases n - i,
        {
            if !same_text(self.names[i].as_str(), parent.names[i].as_str()) {
                assert(self@.names.drop_last()[i as int] != parent@.names[i as int]);
                return false;
            }
            i += 1;
        }
        assert(self@.names.drop_last() =~= parent@.names);
        true
    }
}

/// The entries of `dirs` that meet the criterion `by`, in the order of the walk.
pub fn select(dirs: &Vec<DirEntry>, by: Criterion) -> (r: Vec<DirEntry>)
    ensures
        entries(r@) == selected(entries(dirs@), by@),
{
    let ghost all = entries(dirs@);
    let ghost pred = |d: DirEntryView| meets(d, by@);
    let mut r: Vec<DirEntry> = Vec::new();
    let mut i: usize = 0;
    assert(all.take(0).filter(pred) == Seq::<DirEntryView>::empty()) by {
        reveal(Seq::filter);
    }
    while i < dirs.len()
        invariant
            i <= dirs.len(),
            all == entries(dirs@),
            pred == |d: DirEntryView| meets(d, by@),
            entries(r@) == all.take(i as int).filter(pred),
        decreases dirs.len() - i,
    {
        proof {
            lemma_filter_push(all.take(i as int), all[i as int], pred);
            assert(all.take(i + 1) == all.take(i as int).push(all[i as int]));
        }
        if dirs[i].meets(&by) {
            let ghost before = entries(r@);
            let d = dirs[i].duplicate();
            r.push(d);
            assert(entries(r@) == before.push(d@));
        }
        i += 1;
    }
    assert(all.take(dirs.len() as int) == all);
    r
}

/// The repository directories of `owner` among `dirs`.
pub fn find_matching_owner_dirs(owner: &str, dirs: &Vec<DirEntry>) -> (r: Vec<DirEntry>)
    ensures
        entries(r@) == matching_owner_dirs(entries(dirs@), owner@),
{
    let r = select(dirs, Criterion::Owner(owner));
    assert((|d: DirEntryView| meets(d, CriterionView::Owner(owner@))) == (|d: DirEntryView|
        d.is_owned_by(owner@)));
    r
}

/// The repository directories called `repo` among `dirs`.
pub fn find_matching_repo_dirs(repo: &str, dirs: &Vec<DirEntry>) -> (r: Vec<DirEntry>)
    ensures
        entries(r@) == matching_repo_dirs(entries(dirs@), repo@),
{
    let r = select(dirs, Criterion::Repo(repo));
    assert((|d: DirEntryView| meets(d, CriterionView::Repo(repo@))) == (|d: DirEntryView|
        d.is_repo(repo@)));
    r
}

/// The branch directories called `branch` among `dirs`.
pub fn find_matching_branch_dirs(branch: &str, dirs: &Vec<DirEntry>) -> (r: Vec<DirEntry>)
    ensures
        entries(r@) == matching_branch_dirs(entries(dirs@), branch@),
{
    let r = select(dirs, Criterion::Branch(branch));
    assert((|d: DirEntryView| meets(d, CriterionView::Branch(branch@))) == (|d: DirEntryView|
        d.is_branch(branch@)));
    r
}

/// The entries of `dirs` that lie directly in `parent`.
pub fn find_dirs_under(parent: &DirEntry, dirs: &Vec<DirEntry>) -> (r: Vec<DirEntry>)
    ensures
        entries(r@) == dirs_under(entries(dirs@), parent@),
{
    let r = select(dirs, Criterion::Under(parent));
    assert((|d: DirEntryView| meets(d, CriterionView::Under(parent@))) == (|d: DirEntryView|
        d.is_child_of(parent@)));
    r
}

/// The directories of `walk` at a depth from `min` to `max`.
pub fn collect_directories(walk: &Vec<DirEntry>, min: usize, max: usize) -> (r: Vec<DirEntry>)
    ensures
        entries(r@) == directories_within(entries(walk@), min as nat, max as nat),
{
    let r = select(walk, Criterion::Directory { min, max });
    let ghost by = CriterionView::Directory { min: min as nat, max: max as nat };
    assert((|d: DirEntryView| meets(d, by)) == (|d: DirEntryView|
        d.is_dir_within(min as nat, max as nat)));
    r
}

/// The lines `lines`, each but the last closed by a line feed.
pub open spec fn joined_lines(lines: Seq<Seq<char>>) -> Seq<char>
    decreases lines.len(),
{
    if lines.len() == 0 {
        Seq::empty()
    } else if lines.len() == 1 {
        lines[0]
    } else {
        joined_lines(lines.drop_last()) + seq!['\n'] + lines.last()
    }
}

/// The paths of the entries `dirs`.
pub open spec fn paths_of(dirs: Seq<DirEntryView>) -> Seq<Seq<char>> {
    dirs.map_values(|d: DirEntryView| d.path)
}

/// The depth at which the branch directories lie below the root of the workspace.
pub const BRANCH_DEPTH: usize = 4;

/// The paths of the branch directories of every host, found by a walk of the root of
/// the workspace.
pub fn get_all_directories(walk: &Vec<DirEntry>) -> (r: Vec<String>)
    ensures
        texts(r@) == paths_of(
            directories_within(entries(walk@), BRANCH_DEPTH as nat, BRANCH_DEPTH as nat),
        ),
{
    let dirs = collect_directories(walk, BRANCH_DEPTH, BRANCH_DEPTH);
    let mut r: Vec<String> = Vec::new();
    let mut i: usize = 0;
    while i < dirs.len()
        invariant
            i <= dirs.len(),
            texts(r@) == paths_of(entries(dirs@).take(i as int)),
        decreases dirs.len() - i,
    {
        let ghost before = texts(r@);
        r.push(dirs[i].path.clone());
        assert(texts(r@) == before.push(dirs[i as int].path@));
        assert(entries(dirs@).take(i + 1) == entries(dirs@).take(i as int).push(dirs[i as int]@));
        i += 1;
    }
    assert(entries(dirs@).take(dirs.len() as int) == entries(dirs@));
    r
}

/// The branch directories of the workspace, one path on each line.
pub fn list(walk: &Vec<DirEntry>) -> (r: String)
    ensures
        r@ == joined_lines(
            paths_of(
                directories_within(entries(walk@), BRANCH_DEPTH as nat, BRANCH_DEPTH as nat),
            ),
        ),
{
    let dirs = get_all_directories(walk);
    let mut r = String::new();
    let mut i: usize = 0;
    while i < dirs.len()
        invariant
            i <= dirs.len(),
            r@ == joined_lines(texts(dirs@).take(i as int)),
        decreases dirs.len() - i,
    {
        let ghost before = texts(dirs@).take(i as int);
        let ghost after = texts(dirs@).take(i + 1);
        assert(after.drop_last() == before);
        assert(after.last() == dirs[i as int]@);
        if i > 0 {
            r.push('\n');
        }
        let line = chars_of(dirs[i].as_str());
        push_chars(&mut r, line.as_slice());
        i += 1;
    }
    assert(texts(dirs@).take(dirs.len() as int) == texts(dirs@));
    r
}

} // verus!
