//! The commands that git is given, as lists of arguments, and what is read from
//! what git printed.

use crate::index::texts;
use crate::text::{
    after_last, chars_of, contains, contains_text, find_after_last, split, split_at_char,
    slice_views, starts_with, text_of, trim, trimmed,
};
use vstd::prelude::*;
use vstd::slice::slice_subrange;
use vstd::string::StringExecFns;

verus! {

/// The arguments of `git clone`, which fetches `url` into `out_path`.
pub open spec fn clone_args(url: Seq<char>, out_path: Seq<char>) -> Seq<Seq<char>> {
    seq!["clone"@, url, out_path]
}

/// The arguments of `git pull`.
pub open spec fn pull_args() -> Seq<Seq<char>> {
    seq!["pull"@]
}

/// The arguments that make git name its version, which shows that git can be run.
pub open spec fn version_args() -> Seq<Seq<char>> {
    seq!["-v"@]
}

/// The arguments that make git describe the remote at `url`.
pub open spec fn remote_show_args(url: Seq<char>) -> Seq<Seq<char>> {
    seq!["remote"@, "show"@, url]
}

/// The arguments that make git list the branches of the remotes.
pub open spec fn remote_branches_args() -> Seq<Seq<char>> {
    seq!["branch"@, "-r"@]
}

/// The arguments that make git list the files it does not track.
pub open spec fn untracked_files_args() -> Seq<Seq<char>> {
    seq!["ls-files"@, "-o"@]
}

/// The arguments that make git list the files of the index, each behind its tag.
pub open spec fn tagged_files_args() -> Seq<Seq<char>> {
    seq!["ls-files"@, "-v"@]
}

/// The arguments of `git worktree add` for the directory `branch` beside the
/// current one: with `new_branch`, on a branch that is made there; without, on
/// the branch that there is.
pub open spec fn worktree_args(branch: Seq<char>, new_branch: bool) -> Seq<Seq<char>> {
    if new_branch {
        seq!["worktree"@, "add"@, "-b"@, branch, "../"@ + branch]
    } else {
        seq!["worktree"@, "add"@, "../"@ + branch, branch]
    }
}

/// The two commands that put `file` into the index without its content and then
/// make git leave it alone, in the order in which they run; the second runs only
/// where the first went well.
pub open spec fn silent_add_args(file: Seq<char>) -> Seq<Seq<Seq<char>>> {
    seq![
        seq!["add"@, "--intent-to-add"@, file],
        seq!["update-index"@, "--skip-worktree"@, "--assume-unchanged"@, file],
    ]
}

/// The views of a list of argument lists.
pub open spec fn commands(v: Seq<Vec<String>>) -> Seq<Seq<Seq<char>>> {
    v.map_values(|c: Vec<String>| texts(c@))
}

/// A list of one string.
fn one(a: &str) -> (r: Vec<String>)
    ensures
        texts(r@) == seq![a@],
{
    let mut r: Vec<String> = Vec::new();
    r.push(a.to_owned());
    assert(texts(r@) == seq![a@]);
    r
}

/// `v` and one string more.
fn with(v: Vec<String>, a: &str) -> (r: Vec<String>)
    ensures
        texts(r@) == texts(v@).push(a@),
{
    let mut r = v;
    r.push(a.to_owned());
    assert(texts(r@) == texts(v@).push(a@));
    r
}

/// Builds the arguments of `git clone`.
pub fn git_clone_command(url: &str, out_path: &str) -> (args: Vec<String>)
    ensures
        texts(args@) == clone_args(url@, out_path@),
{
    with(with(one("clone"), url), out_path)
}

/// Builds the arguments of `git pull`.
pub fn git_pull_command() -> (args: Vec<String>)
    ensures
        texts(args@) == pull_args(),
{
    one("pull")
}

/// Builds the arguments with which git names its version.
pub fn check_git_installed() -> (args: Vec<String>)
    ensures
        texts(args@) == version_args(),
{
    one("-v")
}

/// Builds the arguments with which git describes the remote at `url`.
pub fn git_remote_show_command(url: &str) -> (args: Vec<String>)
    ensures
        texts(args@) == remote_show_args(url@),
{
    with(with(one("remote"), "show"), url)
}

/// Builds the arguments with which git lists the branches of the remotes.
pub fn git_remote_branches_command() -> (args: Vec<String>)
    ensures
        texts(args@) == remote_branches_args(),
{
    with(one("branch"), "-r")
}

/// Builds the arguments with which git lists the files it does not track.
pub fn git_untracked_files_command() -> (args: Vec<String>)
    ensures
        texts(args@) == untracked_files_args(),
{
    with(one("ls-files"), "-o")
}

/// Builds the arguments with which git lists the files of the index behind their
/// tags.
pub fn git_tagged_files_command() -> (args: Vec<String>)
    ensures
        texts(args@) == tagged_files_args(),
{
    with(one("ls-files"), "-v")
}

/// Builds the arguments of `git worktree add`.
pub fn git_checkout_worktree(branch: &str, new_branch: bool) -> (args: Vec<String>)
    ensures
        texts(args@) == worktree_args(branch@, new_branch),
{
    let mut beside = "../".to_owned();
    beside.append(branch);
    let start = with(one("worktree"), "add");
    if new_branch {
        with(with(with(start, "-b"), branch), beside.as_str())
    } else {
        with(with(start, beside.as_str()), branch)
    }
}

/// Builds the two commands that add `file` silently.
pub fn git_silent_add_file(file: &str) -> (r: Vec<Vec<String>>)
    ensures
        commands(r@) == silent_add_args(file@),
{
    let add = with(with(one("add"), "--intent-to-add"), file);
    let leave = with(
        with(with(one("update-index"), "--skip-worktree"), "--assume-unchanged"),
        file,
    );
    let mut r: Vec<Vec<String>> = Vec::new();
    r.push(add);
    r.push(leave);
    assert(commands(r@)[0] == texts(add@));
    assert(commands(r@)[1] == texts(leave@));
    assert(texts(add@) =~= silent_add_args(file@)[0]);
    assert(texts(leave@) =~= silent_add_args(file@)[1]);
    assert(commands(r@) =~= silent_add_args(file@));
    r
}

/// What a listing of git holds, line by line.
#[derive(Clone, Copy, Debug, PartialEq, Eq, Structural)]
pub enum Listing {
    /// The files that git does not track, one path on each line.
    Untracked,
    /// The files of the index, each behind a tag of one letter and a blank; the
    /// tag `h` marks a file that git was told to assume unchanged.
    Tagged,
    /// The branches of the remotes, each behind the name of its remote and `/`;
    /// one line may say where `origin/HEAD` points.
    RemoteBranches,
}

/// Whether `name` is the name of a file below a directory: it is not empty and
/// does not start at the root.
pub open spec fn is_relative(name: Seq<char>) -> bool {
    name.len() > 0 && name[0] != '/'
}

/// What one line of a listing names, if anything. White space round the line does
/// not count. A line of the untracked files names the file that it holds. Of the
/// tagged files only those with the tag `h` are named, by what follows the tag
/// and the blank. A file is named only by a name below the directory of the
/// listing. Of the remote branches only those of `origin` are named, without
/// `origin/`; the line of `origin/HEAD` names none.
pub open spec fn named_on(kind: Listing, line: Seq<char>) -> Option<Seq<char>> {
    let t = trim(line);
    match kind {
        Listing::Untracked => if is_relative(t) {
            Some(t)
        } else {
            None
        },
        Listing::Tagged => if "h"@.is_prefix_of(t) && t.len() > 2 && is_relative(t.skip(2)) {
            Some(t.skip(2))
        } else {
            None
        },
        Listing::RemoteBranches => if "origin/"@.is_prefix_of(t)
            && !"origin/HEAD -> "@.is_prefix_of(t) {
            Some(t.skip("origin/"@.len() as int))
        } else {
            None
        },
    }
}

/// What the lines `lines` name, in their order.
pub open spec fn named_on_lines(kind: Listing, lines: Seq<Seq<char>>) -> Seq<Seq<char>>
    decreases lines.len(),
{
    if lines.len() == 0 {
        Seq::empty()
    } else {
        let before = named_on_lines(kind, lines.drop_last());
        match named_on(kind, lines.last()) {
            Some(name) => before.push(name),
            None => before,
        }
    }
}

/// What the listing `output` names, in the order of its lines.
pub open spec fn named_in(kind: Listing, output: Seq<char>) -> Seq<Seq<char>> {
    named_on_lines(kind, split(output, '\n'))
}

/// The files that a listing names are named below its directory.
pub proof fn lemma_names_are_relative(kind: Listing, lines: Seq<Seq<char>>, i: int)
    requires
        kind != Listing::RemoteBranches,
        0 <= i < named_on_lines(kind, lines).len(),
    ensures
        is_relative(named_on_lines(kind, lines)[i]),
    decreases lines.len(),
{
    if lines.len() > 0 {
        let before = named_on_lines(kind, lines.drop_last());
        if i < before.len() {
            lemma_names_are_relative(kind, lines.drop_last(), i);
        }
    }
}

/// Decides whether `name` is the name of a file below a directory.
pub fn relative(name: &[char]) -> (r: bool)
    ensures
        r == is_relative(name@),
{
    name.len() > 0 && name[0] != '/'
}

/// Reads one line of a listing.
pub fn read_line(kind: Listing, line: &[char]) -> (r: Option<String>)
    ensures
        match r {
            Some(name) => named_on(kind, line@) == Some(name@),
            None => named_on(kind, line@) is None,
        },
{
    let t = trimmed(line);
    match kind {
        Listing::Untracked => if relative(t) {
            Some(text_of(t))
        } else {
            None
        },
        Listing::Tagged => {
            let tag = chars_of("h");
            if starts_with(t, tag.as_slice()) && t.len() > 2 && relative(
                slice_subrange(t, 2, t.len()),
            ) {
                Some(text_of(slice_subrange(t, 2, t.len())))
            } else {
                None
            }
        },
        Listing::RemoteBranches => {
            let origin = chars_of("origin/");
            let head = chars_of("origin/HEAD -> ");
            if starts_with(t, origin.as_slice()) && !starts_with(t, head.as_slice()) {
                Some(text_of(slice_subrange(t, origin.len(), t.len())))
            } else {
                None
            }
        },
    }
}

/// Reads a listing.
pub fn read_listing(kind: Listing, output: &str) -> (names: Vec<String>)
    ensures
        texts(names@) == named_in(kind, output@),
{
    let text = chars_of(output);
    let lines = split_at_char(text.as_slice(), '\n');
    let ghost all = slice_views(lines@);
    let mut names: Vec<String> = Vec::new();
    let mut i: usize = 0;
    while i < lines.len()
        invariant
            i <= lines.len(),
            all == slice_views(lines@),
            texts(names@) == named_on_lines(kind, all.take(i as int)),
        decreases lines.len() - i,
    {
        assert(all.take(i + 1).drop_last() == all.take(i as int));
        assert(all.take(i + 1).last() == lines@[i as int]@);
        if let Some(name) = read_line(kind, lines[i]) {
            let ghost before = texts(names@);
            names.push(name);
            assert(texts(names@) == before.push(name@));
        }
        i += 1;
    }
    assert(all.take(lines.len() as int) == all);
    names
}

/// The branches of `origin` that `output` lists, where `output` is what
/// `git branch -r` printed.
pub fn git_get_remote_branches_command(output: &str) -> (branches: Vec<String>)
    ensures
        texts(branches@) == named_in(Listing::RemoteBranches, output@),
{
    read_listing(Listing::RemoteBranches, output)
}

/// The files that git does not track, where `output` is what `git ls-files -o`
/// printed.
pub fn git_get_untracked_files(output: &str) -> (files: Vec<String>)
    ensures
        texts(files@) == named_in(Listing::Untracked, output@),
{
    read_listing(Listing::Untracked, output)
}

/// The files that were added silently, where `output` is what `git ls-files -v`
/// printed.
pub fn git_get_silently_added_files(output: &str) -> (files: Vec<String>)
    ensures
        texts(files@) == named_in(Listing::Tagged, output@),
{
    read_listing(Listing::Tagged, output)
}

/// The first of `lines` that speaks of the `HEAD branch`, if one does.
pub open spec fn head_branch_line(lines: Seq<Seq<char>>) -> Option<Seq<char>>
    decreases lines.len(),
{
    if lines.len() == 0 {
        None
    } else if contains_text(lines[0], "HEAD branch"@) {
        Some(lines[0])
    } else {
        head_branch_line(lines.drop_first())
    }
}

/// The default branch that the description `output` of a remote gives: what
/// follows the last blank of the first line that speaks of the `HEAD branch`,
/// without the white space round it, unless that is empty.
pub open spec fn default_branch(output: Seq<char>) -> Option<Seq<char>> {
    match head_branch_line(split(output, '\n')) {
        Some(line) => {
            let name = trim(line.skip(after_last(line, ' ')));
            if name.len() > 0 {
                Some(name)
            } else {
                None
            }
        },
        None => None,
    }
}

/// The default branch of a remote, where `output` is what `git remote show`
/// printed of it.
pub fn get_default_branch_with_git(output: &str) -> (r: Option<String>)
    ensures
        match r {
            Some(name) => default_branch(output@) == Some(name@),
            None => default_branch(output@) is None,
        },
{
    let text = chars_of(output);
    let lines = split_at_char(text.as_slice(), '\n');
    let marker = chars_of("HEAD branch");
    let ghost all = slice_views(lines@);
    let mut i: usize = 0;
    assert(all.skip(0) == all);
    while i < lines.len()
        invariant
            i <= lines.len(),
            all == slice_views(lines@),
            all == split(output@, '\n'),
            marker@ == "HEAD branch"@,
            head_branch_line(all) == head_branch_line(all.skip(i as int)),
        decreases lines.len() - i,
    {
        let line = lines[i];
        assert(all.skip(i as int)[0] == line@);
        if contains(line, marker.as_slice()) {
            let from = find_after_last(line, ' ');
            let name = trimmed(slice_subrange(line, from, line.len()));
            return if name.len() > 0 {
                Some(text_of(name))
            } else {
                None
            };
        }
        assert(all.skip(i as int).drop_first() == all.skip(i + 1));
        i += 1;
    }
    None
}

/// A status of HTTP that reports success: from 200 to 299.
pub open spec fn is_success(status: u16) -> bool {
    200 <= status < 300
}

/// Whether the host knows the user it was asked about, given the status of its
/// answer.
pub fn check_github_user_exists(status: u16) -> (exists: bool)
    ensures
        exists == is_success(status),
{
    200 <= status && status < 300
}

/// The address at which the host answers for `user`.
pub open spec fn user_url(user: Seq<char>) -> Seq<char> {
    "https://api.github.com/users/"@ + user
}

/// Builds the address at which the host answers for `user`.
pub fn github_user_url(user: &str) -> (url: String)
    ensures
        url@ == user_url(user@),
{
    let mut url = "https://api.github.com/users/".to_owned();
    url.append(user);
    url
}

} // verus!
