//! Texts as sequences of characters: white space, segments, pieces between
//! separators, and the joining of paths.

use vstd::prelude::*;
use vstd::slice::slice_subrange;

verus! {

/// The characters a path segment may hold: ASCII letters and digits, `_`, `.` and `-`.
pub open spec fn is_segment_char(c: char) -> bool {
    ||| 'a' <= c <= 'z'
    ||| 'A' <= c <= 'Z'
    ||| '0' <= c <= '9'
    ||| c == '_'
    ||| c == '.'
    ||| c == '-'
}

/// Decides whether `c` may occur in a path segment.
pub fn segment_char(c: char) -> (r: bool)
    ensures
        r == is_segment_char(c),
{
    ('a' <= c && c <= 'z') || ('A' <= c && c <= 'Z') || ('0' <= c && c <= '9') || c == '_'
        || c == '.' || c == '-'
}

/// Collects the characters of `s`.
pub fn chars_of(s: &str) -> (v: Vec<char>)
    ensures
        v@ == s@,
{
    broadcast use vstd::string::group_string_axioms;

    let mut v: Vec<char> = Vec::new();
    for c in iter: s.chars()
        invariant
            iter.seq() == s@,
            v@ == s@.subrange(0, iter.index()),
    {
        v.push(c);
    }
    v
}

/// Taken on trust: `String::push` of the standard library puts the character `ch`
/// behind the last character of the string and leaves the others as they are.
pub assume_specification[ String::push ](s: &mut String, ch: char)
    ensures
        final(s)@ == old(s)@.push(ch),
;

/// White space as Unicode defines it (the property `White_Space`).
pub open spec fn is_whitespace(c: char) -> bool {
    ||| '\u{9}' <= c <= '\u{d}'
    ||| c == ' '
    ||| c == '\u{85}'
    ||| c == '\u{a0}'
    ||| c == '\u{1680}'
    ||| '\u{2000}' <= c <= '\u{200a}'
    ||| c == '\u{2028}'
    ||| c == '\u{2029}'
    ||| c == '\u{202f}'
    ||| c == '\u{205f}'
    ||| c == '\u{3000}'
}

/// Decides whether `c` is white space.
pub fn whitespace(c: char) -> (r: bool)
    ensures
        r == is_whitespace(c),
{
    ('\u{9}' <= c && c <= '\u{d}') || c == ' ' || c == '\u{85}' || c == '\u{a0}' || c
        == '\u{1680}' || ('\u{2000}' <= c && c <= '\u{200a}') || c == '\u{2028}' || c
        == '\u{2029}' || c == '\u{202f}' || c == '\u{205f}' || c == '\u{3000}'
}

/// `s` without its leading white space.
pub open spec fn trim_start(s: Seq<char>) -> Seq<char>
    decreases s.len(),
{
    if s.len() > 0 && is_whitespace(s[0]) {
        trim_start(s.drop_first())
    } else {
        s
    }
}

/// `s` without its trailing white space.
pub open spec fn trim_end(s: Seq<char>) -> Seq<char>
    decreases s.len(),
{
    if s.len() > 0 && is_whitespace(s.last()) {
        trim_end(s.drop_last())
    } else {
        s
    }
}

/// `s` without the white space at either end.
pub open spec fn trim(s: Seq<char>) -> Seq<char> {
    trim_end(trim_start(s))
}

/// The part of `s` that is left when the white space at both ends is taken away.
pub fn trimmed(s: &[char]) -> (r: &[char])
    ensures
        r@ == trim(s@),
{
    let mut from: usize = 0;
    assert(s@.subrange(0, s.len() as int) == s@);
    while from < s.len() && whitespace(s[from])
        invariant
            from <= s.len(),
            trim_start(s@) == trim_start(s@.subrange(from as int, s.len() as int)),
        decreases s.len() - from,
    {
        proof {
            let t = s@.subrange(from as int, s.len() as int);
            assert(t.drop_first() == s@.subrange(from + 1, s.len() as int));
        }
        from += 1;
    }
    assert(trim_start(s@) == s@.subrange(from as int, s.len() as int));
    let mut to: usize = s.len();
    while from < to && whitespace(s[to - 1])
        invariant
            from <= to <= s.len(),
            trim(s@) == trim_end(s@.subrange(from as int, to as int)),
        decreases to - from,
    {
        proof {
            let t = s@.subrange(from as int, to as int);
            assert(t.drop_last() == s@.subrange(from as int, to - 1));
        }
        to -= 1;
    }
    slice_subrange(s, from, to)
}

/// Where the first `c` stands in `s`; `s.len()` where `s` holds none.
pub open spec fn first_index(s: Seq<char>, c: char) -> int
    decreases s.len(),
{
    if s.len() == 0 || s[0] == c {
        0
    } else {
        1 + first_index(s.drop_first(), c)
    }
}

/// `first_index` points at the first `c`, and nothing before it is a `c`.
pub proof fn lemma_first_index(s: Seq<char>, c: char)
    ensures
        0 <= first_index(s, c) <= s.len(),
        first_index(s, c) < s.len() ==> s[first_index(s, c)] == c,
        forall|j: int| 0 <= j < first_index(s, c) ==> s[j] != c,
    decreases s.len(),
{
    if s.len() == 0 || s[0] == c {
    } else {
        let t = s.drop_first();
        lemma_first_index(t, c);
        assert forall|j: int| 0 <= j < first_index(s, c) implies s[j] != c by {
            if j > 0 {
                assert(s[j] == t[j - 1]);
            }
        }
    }
}

/// A position that holds `c` and has no `c` before it is the first index of `c`.
pub proof fn lemma_first_index_is(s: Seq<char>, c: char, i: int)
    requires
        0 <= i <= s.len(),
        i < s.len() ==> s[i] == c,
        forall|j: int| 0 <= j < i ==> s[j] != c,
    ensures
        first_index(s, c) == i,
{
    lemma_first_index(s, c);
    let f = first_index(s, c);
    if f < i {
        assert(s[f] != c);
    }
}

/// Finds the first `c` in `s`.
pub fn find_char(s: &[char], c: char) -> (i: usize)
    ensures
        i == first_index(s@, c),
        i <= s.len(),
{
    let mut i: usize = 0;
    while i < s.len() && s[i] != c
        invariant
            i <= s.len(),
            forall|j: int| 0 <= j < i ==> s@[j] != c,
        decreases s.len() - i,
    {
        i += 1;
    }
    proof {
        lemma_first_index_is(s@, c, i as int);
    }
    i
}

/// The pieces of `s` between the occurrences of `sep`; there is always at least one piece.
pub open spec fn split(s: Seq<char>, sep: char) -> Seq<Seq<char>>
    decreases s.len(),
{
    let i = first_index(s, sep);
    if 0 <= i < s.len() {
        seq![s.take(i)] + split(s.skip(i + 1), sep)
    } else {
        seq![s]
    }
}

/// The views of a list of slices.
pub open spec fn slice_views(pieces: Seq<&[char]>) -> Seq<Seq<char>> {
    pieces.map_values(|p: &[char]| p@)
}

/// Cuts `s` at every `sep`.
pub fn split_at_char(s: &[char], sep: char) -> (pieces: Vec<&[char]>)
    ensures
        slice_views(pieces@) == split(s@, sep),
{
    let mut pieces: Vec<&[char]> = Vec::new();
    let mut rest: &[char] = s;
    assert(slice_views(pieces@) + split(rest@, sep) == split(s@, sep));
    loop
        invariant_except_break
            slice_views(pieces@) + split(rest@, sep) == split(s@, sep),
        ensures
            slice_views(pieces@) == split(s@, sep),
        decreases rest.len(),
    {
        let i = find_char(rest, sep);
        let ghost before = slice_views(pieces@);
        if i < rest.len() {
            let head = slice_subrange(rest, 0, i);
            let tail = slice_subrange(rest, i + 1, rest.len());
            pieces.push(head);
            assert(slice_views(pieces@) == before + seq![head@]);
            rest = tail;
        } else {
            pieces.push(rest);
            assert(slice_views(pieces@) == before + seq![rest@]);
            break;
        }
    }
    pieces
}

/// Decides whether `s` begins with `prefix`.
pub fn starts_with(s: &[char], prefix: &[char]) -> (r: bool)
    ensures
        r == prefix@.is_prefix_of(s@),
{
    if prefix.len() > s.len() {
        return false;
    }
    let mut i: usize = 0;
    while i < prefix.len()
        invariant
            i <= prefix.len() <= s.len(),
            forall|j: int| 0 <= j < i ==> s@[j] == prefix@[j],
        decreases prefix.len() - i,
    {
        if s[i] != prefix[i] {
            assert(s@.subrange(0, prefix@.len() as int)[i as int] != prefix@[i as int]);
            return false;
        }
        i += 1;
    }
    assert(prefix@ =~= s@.subrange(0, prefix@.len() as int));
    true
}

/// Decides whether `s` ends with `suffix`.
pub fn ends_with(s: &[char], suffix: &[char]) -> (r: bool)
    ensures
        r == suffix@.is_suffix_of(s@),
{
    if suffix.len() > s.len() {
        return false;
    }
    let tail = slice_subrange(s, s.len() - suffix.len(), s.len());
    let r = starts_with(tail, suffix);
    proof {
        if r {
            assert(tail@.subrange(0, suffix@.len() as int) =~= tail@);
        } else {
            if suffix@.is_suffix_of(s@) {
                assert(tail@.subrange(0, suffix@.len() as int) =~= tail@);
            }
        }
    }
    r
}

/// `pattern` occurs somewhere in `s`.
pub open spec fn contains_text(s: Seq<char>, pattern: Seq<char>) -> bool {
    exists|i: int| 0 <= i <= s.len() && #[trigger] pattern.is_prefix_of(s.skip(i))
}

/// Decides whether `pattern` occurs in `s`.
pub fn contains(s: &[char], pattern: &[char]) -> (r: bool)
    ensures
        r == contains_text(s@, pattern@),
{
    let mut i: usize = 0;
    while i < s.len()
        invariant
            i <= s.len(),
            forall|j: int| 0 <= j < i ==> !#[trigger] pattern@.is_prefix_of(s@.skip(j)),
        decreases s.len() - i,
    {
        if starts_with(slice_subrange(s, i, s.len()), pattern) {
            return true;
        }
        i += 1;
    }
    starts_with(slice_subrange(s, i, s.len()), pattern)
}

/// Where the last `c` stands in `s`, counted from one: the length of the shortest
/// prefix of `s` that ends with the last `c`; 0 where `s` holds none.
pub open spec fn after_last(s: Seq<char>, c: char) -> int
    decreases s.len(),
{
    if s.len() == 0 {
        0
    } else if s.last() == c {
        s.len() as int
    } else {
        after_last(s.drop_last(), c)
    }
}

/// Finds the position behind the last `c` in `s`.
pub fn find_after_last(s: &[char], c: char) -> (i: usize)
    ensures
        i == after_last(s@, c),
        i <= s.len(),
{
    let mut i: usize = s.len();
    assert(s@.subrange(0, i as int) == s@);
    while i > 0 && s[i - 1] != c
        invariant
            i <= s.len(),
            after_last(s@, c) == after_last(s@.subrange(0, i as int), c),
        decreases i,
    {
        proof {
            let t = s@.subrange(0, i as int);
            assert(t.drop_last() == s@.subrange(0, i - 1));
        }
        i -= 1;
    }
    i
}

/// Appends the characters of `s` to `out`.
pub fn push_chars(out: &mut String, s: &[char])
    ensures
        final(out)@ == old(out)@ + s@,
{
    let mut i: usize = 0;
    assert(s@.subrange(0, 0) == Seq::<char>::empty());
    while i < s.len()
        invariant
            i <= s.len(),
            out@ == old(out)@ + s@.subrange(0, i as int),
        decreases s.len() - i,
    {
        out.push(s[i]);
        assert(s@.subrange(0, i + 1) == s@.subrange(0, i as int).push(s@[i as int]));
        i += 1;
    }
    assert(s@.subrange(0, s.len() as int) == s@);
}

/// The string that holds the characters of `s`.
pub fn text_of(s: &[char]) -> (r: String)
    ensures
        r@ == s@,
{
    let mut r = String::new();
    push_chars(&mut r, s);
    r
}

/// Decides whether `a` and `b` hold the same characters.
pub fn same_text(a: &str, b: &str) -> (r: bool)
    ensures
        r == (a@ == b@),
{
    let x = chars_of(a);
    let y = chars_of(b);
    if x.len() != y.len() {
        return false;
    }
    let mut i: usize = 0;
    while i < x.len()
        invariant
            i <= x.len(),
            x.len() == y.len(),
            x@ == a@,
            y@ == b@,
            forall|j: int| 0 <= j < i ==> x@[j] == y@[j],
        decreases x.len() - i,
    {
        if x[i] != y[i] {
            return false;
        }
        i += 1;
    }
    assert(x@ =~= y@);
    true
}

/// A path segment: one or more segment characters.
pub open spec fn is_segment(s: Seq<char>) -> bool {
    s.len() > 0 && forall|i: int| 0 <= i < s.len() ==> is_segment_char(#[trigger] s[i])
}

/// Decides whether `s` is a path segment.
pub fn segment(s: &[char]) -> (r: bool)
    ensures
        r == is_segment(s@),
{
    if s.len() == 0 {
        return false;
    }
    let mut i: usize = 0;
    while i < s.len()
        invariant
            i <= s.len(),
            forall|j: int| 0 <= j < i ==> is_segment_char(#[trigger] s@[j]),
        decreases s.len() - i,
    {
        if !segment_char(s[i]) {
            return false;
        }
        i += 1;
    }
    true
}

/// `name` below the directory `base`: a `name` that starts at the root stands alone,
/// otherwise one `/` parts the two unless `base` is empty or already ends in one.
pub open spec fn join_path(base: Seq<char>, name: Seq<char>) -> Seq<char> {
    if name.len() > 0 && name[0] == '/' {
        name
    } else if base.len() == 0 || base.last() == '/' {
        base + name
    } else {
        base + seq!['/'] + name
    }
}

/// Joins `name` to the directory `base`.
pub fn join(base: &str, name: &str) -> (r: String)
    ensures
        r@ == join_path(base@, name@),
{
    let b = chars_of(base);
    let n = chars_of(name);
    let mut r = String::new();
    if n.len() > 0 && n[0] == '/' {
        push_chars(&mut r, n.as_slice());
    } else if b.len() == 0 || b[b.len() - 1] == '/' {
        push_chars(&mut r, b.as_slice());
        push_chars(&mut r, n.as_slice());
    } else {
        push_chars(&mut r, b.as_slice());
        r.push('/');
        push_chars(&mut r, n.as_slice());
    }
    r
}

/// A name below a directory is joined to the directory as it stands: the path
/// ends with the name, and begins with the directory.
pub proof fn lemma_join_keeps_the_name(base: Seq<char>, name: Seq<char>)
    requires
        name.len() > 0,
        name[0] != '/',
    ensures
        name.is_suffix_of(join_path(base, name)),
        base.is_prefix_of(join_path(base, name)),
{
    let joined = join_path(base, name);
    assert(joined.subrange(joined.len() - name.len(), joined.len() as int) == name);
    assert(joined.subrange(0, base.len() as int) == base);
}

/// A segment holds no `/`.
pub proof fn lemma_segment_has_no_slash(s: Seq<char>)
    requires
        is_segment(s),
    ensures
        first_index(s, '/') == s.len(),
        split(s, '/') == seq![s],
{
    assert forall|j: int| 0 <= j < s.len() implies s[j] != '/' by {
        assert(is_segment_char(s[j]));
    }
    lemma_first_index_is(s, '/', s.len() as int);
}

/// A text splits into at least one piece, and into one piece only where it holds
/// no separator: that piece is the text.
pub proof fn lemma_split_one(s: Seq<char>, sep: char)
    ensures
        split(s, sep).len() >= 1,
        split(s, sep).len() == 1 ==> split(s, sep) == seq![s] && first_index(s, sep) == s.len(),
    decreases s.len(),
{
    lemma_first_index(s, sep);
    let i = first_index(s, sep);
    if 0 <= i < s.len() {
        lemma_split_one(s.skip(i + 1), sep);
    }
}

/// The pieces of a text that begins with `head`, where `head` holds no separator
/// and a separator follows it.
pub proof fn lemma_split_head(head: Seq<char>, tail: Seq<char>, sep: char)
    requires
        first_index(head, sep) == head.len(),
    ensures
        split(head + seq![sep] + tail, sep) == seq![head] + split(tail, sep),
{
    let s = head + seq![sep] + tail;
    lemma_first_index(head, sep);
    assert forall|j: int| 0 <= j < head.len() implies s[j] != sep by {
        assert(s[j] == head[j]);
    }
    lemma_first_index_is(s, sep, head.len() as int);
    assert(s.take(head.len() as int) == head);
    assert(s.skip(head.len() as int + 1) == tail);
}

} // verus!
