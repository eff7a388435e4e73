//! The textual grammar of a virtual directory path: `source[@refspec][[sub_folder]]`.
//!
//! A path is read with a leftmost, shortest-first preference: the source is
//! the shortest non-empty prefix after which the rest of the text can still be
//! read; a refspec (introduced by `@`) is preferred over no refspec and is
//! itself as short as possible; a trailing `[..]` group, when the remaining
//! text has that shape, is the sub-folder.

use vstd::prelude::*;

verus! {

/// What may follow the source and the refspec: nothing, or a bracketed
/// sub-folder of at least one character.
pub open spec fn valid_tail(t: Seq<char>) -> bool {
    t.len() == 0 || (t.len() >= 3 && t[0] == '[' && t.last() == ']')
}

/// A refspec starts at `k`: an `@` followed by at least one character.
pub open spec fn refspec_starts_at(s: Seq<char>, k: int) -> bool {
    0 <= k && k + 1 < s.len() && s[k] == '@'
}

/// The source may end at `k`: what follows can be read as a refspec or a tail.
pub open spec fn splits_at(s: Seq<char>, k: int) -> bool {
    refspec_starts_at(s, k) || valid_tail(s.skip(k))
}

/// The least `k >= i` at which the source may end (the whole text at worst).
pub open spec fn first_split_from(s: Seq<char>, i: int) -> int
    decreases s.len() - i,
{
    if i >= s.len() {
        s.len() as int
    } else if splits_at(s, i) {
        i
    } else {
        first_split_from(s, i + 1)
    }
}

/// The least `j >= i` from which the rest is a valid tail (the end at worst).
pub open spec fn first_tail_from(s: Seq<char>, i: int) -> int
    decreases s.len() - i,
{
    if i >= s.len() {
        s.len() as int
    } else if valid_tail(s.skip(i)) {
        i
    } else {
        first_tail_from(s, i + 1)
    }
}

/// The three parts of a path as read from its text.
pub struct PathParts {
    pub source: Seq<char>,
    pub refspec: Option<Seq<char>>,
    pub sub_folder: Option<Seq<char>>,
}

/// The sub-folder held by a valid tail: the text between its brackets.
pub open spec fn tail_sub_folder(t: Seq<char>) -> Option<Seq<char>> {
    if t.len() == 0 {
        None
    } else {
        Some(t.subrange(1, t.len() - 1))
    }
}

/// Where the source ends in `s`.
pub open spec fn source_end(s: Seq<char>) -> int {
    first_split_from(s, 1)
}

/// Where the tail starts in `s` (after the refspec, if there is one).
pub open spec fn tail_start(s: Seq<char>) -> int {
    let k = source_end(s);
    if refspec_starts_at(s, k) {
        first_tail_from(s, k + 2)
    } else {
        k
    }
}

/// The reading of a (non-empty, single-line) text as a path.
pub open spec fn split_path(s: Seq<char>) -> PathParts {
    let k = source_end(s);
    let t = tail_start(s);
    PathParts {
        source: s.take(k),
        refspec: if refspec_starts_at(s, k) {
            Some(s.subrange(k + 1, t))
        } else {
            None
        },
        sub_folder: tail_sub_folder(s.skip(t)),
    }
}

/// A text is read as a path exactly when it is non-empty and holds no line feed.
pub open spec fn is_path_text(s: Seq<char>) -> bool {
    s.len() > 0 && forall|i: int| 0 <= i < s.len() ==> s[i] != '\n'
}

/// Whether the tail starting at `j` in `s` is valid.
fn tail_is_valid(s: &Vec<char>, j: usize) -> (b: bool)
    requires
        j <= s@.len(),
    ensures
        b == valid_tail(s@.skip(j as int)),
{
    let n = s.len();
    if j == n {
        assert(s@.skip(j as int).len() == 0);
        true
    } else if n - j >= 3 {
        s[j] == '[' && s[n - 1] == ']'
    } else {
        false
    }
}

proof fn lemma_first_split_range(s: Seq<char>, i: int)
    requires
        0 <= i,
    ensures
        i <= s.len() ==> i <= first_split_from(s, i) <= s.len(),
    decreases s.len() - i,
{
    if i < s.len() && !splits_at(s, i) {
        lemma_first_split_range(s, i + 1);
    }
}

proof fn lemma_first_tail_range(s: Seq<char>, i: int)
    requires
        0 <= i,
    ensures
        i <= s.len() ==> i <= first_tail_from(s, i) <= s.len(),
    decreases s.len() - i,
{
    if i < s.len() && !valid_tail(s.skip(i)) {
        lemma_first_tail_range(s, i + 1);
    }
}

/// Where the source ends and the tail starts lie within the text, in order,
/// and the tail is valid.
pub proof fn lemma_split_bounds(s: Seq<char>)
    requires
        s.len() > 0,
    ensures
        1 <= source_end(s) <= tail_start(s) <= s.len(),
        valid_tail(s.skip(tail_start(s))),
        refspec_starts_at(s, source_end(s)) ==> source_end(s) + 2 <= tail_start(s),
{
    lemma_first_split_range(s, 1);
    let k = source_end(s);
    if refspec_starts_at(s, k) {
        lemma_first_tail_range(s, k + 2);
        lemma_first_tail_valid(s, k + 2);
    } else {
        lemma_first_split_valid(s, 1);
    }
}

proof fn lemma_first_tail_valid(s: Seq<char>, i: int)
    requires
        0 <= i <= s.len(),
    ensures
        valid_tail(s.skip(first_tail_from(s, i))),
    decreases s.len() - i,
{
    if i == s.len() {
        assert(s.skip(i).len() == 0);
    } else if !valid_tail(s.skip(i)) {
        lemma_first_tail_valid(s, i + 1);
    }
}

/// Where the first split lands, the source may end there; and if no refspec
/// starts there, the rest is a valid tail.
proof fn lemma_first_split_valid(s: Seq<char>, i: int)
    requires
        0 <= i <= s.len(),
    ensures
        first_split_from(s, i) == s.len() || splits_at(s, first_split_from(s, i)),
        !refspec_starts_at(s, first_split_from(s, i)) ==> valid_tail(s.skip(first_split_from(s, i))),
    decreases s.len() - i,
{
    if i == s.len() {
        assert(s.skip(i).len() == 0);
    } else if !splits_at(s, i) {
        lemma_first_split_valid(s, i + 1);
    }
}

/// Finds where the source ends and where the tail starts.
pub fn split_positions(s: &Vec<char>) -> (r: (usize, usize))
    requires
        s@.len() > 0,
    ensures
        r.0 as int == source_end(s@),
        r.1 as int == tail_start(s@),
{
    let n = s.len();
    let mut k: usize = 1;
    while k < n && !((k + 1 < n && s[k] == '@') || tail_is_valid(s, k))
        invariant
            1 <= k <= n,
            n == s@.len(),
            first_split_from(s@, k as int) == first_split_from(s@, 1),
        decreases n - k,
    {
        k = k + 1;
    }
    assert(first_split_from(s@, k as int) == k as int);
    if k < n && k + 1 < n && s[k] == '@' {
        let mut j: usize = k + 2;
        while j < n && !tail_is_valid(s, j)
            invariant
                k + 2 <= j <= n,
                n == s@.len(),
                first_tail_from(s@, j as int) == first_tail_from(s@, k + 2),
            decreases n - j,
        {
            j = j + 1;
        }
        (k, j)
    } else {
        (k, k)
    }
}

/// Before the first split, the source may not end.
pub proof fn lemma_first_split_min(s: Seq<char>, i: int, j: int)
    requires
        0 <= i <= j < first_split_from(s, i),
    ensures
        !splits_at(s, j),
    decreases j - i,
{
    if i < s.len() && !splits_at(s, i) && j > i {
        lemma_first_split_min(s, i + 1, j);
    }
}

/// The first split from `i` is any `k` at which the source may end (or the
/// end of the text) such that it may end nowhere in between.
pub proof fn lemma_first_split_is(s: Seq<char>, i: int, k: int)
    requires
        0 <= i <= k <= s.len(),
        forall|j: int| i <= j < k ==> !splits_at(s, j),
        k == s.len() || splits_at(s, k),
    ensures
        first_split_from(s, i) == k,
    decreases k - i,
{
    if i < k {
        lemma_first_split_is(s, i + 1, k);
    }
}

/// Before the first valid tail, the rest is no valid tail.
pub proof fn lemma_first_tail_min(s: Seq<char>, i: int, j: int)
    requires
        0 <= i <= j < first_tail_from(s, i),
    ensures
        !valid_tail(s.skip(j)),
    decreases j - i,
{
    if i < s.len() && !valid_tail(s.skip(i)) && j > i {
        lemma_first_tail_min(s, i + 1, j);
    }
}

} // verus!
