//! How reading and rendering a virtual directory path fit together.

use vstd::prelude::*;
use crate::path_grammar::{
    valid_tail, refspec_starts_at, splits_at, tail_sub_folder, source_end, tail_start,
    split_path, is_path_text, lemma_split_bounds, lemma_first_split_min, lemma_first_split_is,
};
use crate::text::seq_ends_with;
use crate::vdir_types::{PathModel, read_model, render, is_archive, sub_folder_text, refspec_text};

verus! {

/// A local folder whose path ends in `]` and holds an earlier `[` (not at
/// its start, with at least one character between the brackets): rendered
/// alone, such a path is read back with a sub-folder.
pub open spec fn bracket_suffixed_folder(m: PathModel) -> bool {
    match m {
        PathModel::LocalFolder { path } => exists|j: int|
            1 <= j && j + 3 <= path.len() && #[trigger] path[j] == '[' && path.last() == ']',
        _ => false,
    }
}

/// A valid tail is the text of the sub-folder it holds.
proof fn lemma_tail_text(u: Seq<char>)
    requires
        valid_tail(u),
    ensures
        sub_folder_text(tail_sub_folder(u)) == u,
{
    assert(sub_folder_text(tail_sub_folder(u)) =~= u);
}

/// An archive source does not end in `]`.
proof fn lemma_archive_last(src: Seq<char>)
    requires
        is_archive(src),
    ensures
        src.len() > 0 && src.last() != ']',
{
    reveal_strlit(".zip");
    reveal_strlit(".tar.gz");
    if seq_ends_with(src, ".zip"@) {
        assert(src.last() == src.skip(src.len() - 4)[3]);
    } else {
        assert(src.last() == src.skip(src.len() - 7)[6]);
    }
}

/// The text that `render` gives for what was read from `s`, in terms of `s`.
pub proof fn lemma_render_read(s: Seq<char>)
    requires
        is_path_text(s),
    ensures
        ({
            let k = source_end(s);
            let t = tail_start(s);
            let r = render(read_model(s));
            match read_model(s) {
                PathModel::LocalFolder { .. } => r == s.take(k),
                PathModel::GitRepo { .. } => r == s,
                _ => r == s.take(k) + s.skip(t),
            }
        }),
{
    let k = source_end(s);
    let t = tail_start(s);
    lemma_split_bounds(s);
    lemma_tail_text(s.skip(t));
    let parts = split_path(s);
    match read_model(s) {
        PathModel::GitRepo { .. } => {
            assert(refspec_text(parts.refspec) =~= s.subrange(k, t));
            assert(s =~= s.take(k) + s.subrange(k, t) + s.skip(t));
        },
        _ => {},
    }
}

/// A path read from text and rendered back is read again as the same path,
/// unless it is a local folder whose path ends in a bracketed part (such as the
/// folder `a[bc]` read from `a[bc]@x`, which is rendered `a[bc]` and then read
/// as the folder `a`).
pub proof fn lemma_read_render_read(s: Seq<char>)
    requires
        is_path_text(s),
        !bracket_suffixed_folder(read_model(s)),
    ensures
        is_path_text(render(read_model(s))),
        read_model(render(read_model(s))) == read_model(s),
{
    let k = source_end(s);
    let tt = tail_start(s);
    let m = read_model(s);
    let r = render(m);
    lemma_split_bounds(s);
    lemma_render_read(s);
    if m is GitRepo {
        return;
    }
    let src = s.take(k);
    let rest = r.skip(k);
    assert(r.take(k) =~= src);
    assert(is_path_text(r)) by {
        assert forall|i: int| 0 <= i < r.len() implies r[i] != '\n' by {
            if i < k {
                assert(r[i] == s[i]);
            } else {
                assert(r[i] == s[i - k + tt]);
            }
        }
    }
    // rest is empty, or the sub-folder part of `s`.
    assert(rest.len() == 0 || rest == s.skip(tt)) by {
        if !(m is LocalFolder) {
            assert(r.skip(k) =~= s.skip(tt));
        }
    }
    assert(valid_tail(rest));
    assert(rest.len() > 0 ==> k < tt || !refspec_starts_at(s, k));
    // No split before k in r.
    assert forall|j: int| 1 <= j < k implies !splits_at(r, j) by {
        lemma_first_split_min(s, 1, j);
        assert(r[j] == s[j]);
        if refspec_starts_at(r, j) {
            assert(!refspec_starts_at(s, j));
            assert(j + 1 >= s.len());
        }
        if valid_tail(r.skip(j)) && !refspec_starts_at(r, j) {
            assert(r.skip(j)[0] == r[j]);
            assert(r.skip(j).last() == r.last());
            if rest.len() > 0 {
                assert(s.skip(tt).len() >= 3);
                assert(s.last() == r.last());
                assert(s.skip(j)[0] == s[j]);
                assert(s.skip(j).last() == s.last());
                assert(valid_tail(s.skip(j)));
            } else if m is LocalFolder {
                assert(r == src);
                assert(src[j] == '[');
            } else {
                lemma_archive_last(src);
                assert(r == src);
            }
        }
    }
    assert(r.skip(k) == rest);
    lemma_first_split_is(r, 1, k);
    assert(source_end(r) == k);
    assert(!refspec_starts_at(r, k)) by {
        if rest.len() > 0 {
            assert(rest[0] == r[k]);
        }
    }
    assert(split_path(r).source == src);
    assert(split_path(r).sub_folder == split_path(s).sub_folder || m is LocalFolder);
}

/// Every part read from a path text is non-empty: the source, and the refspec
/// and sub-folder when there are any.
pub proof fn lemma_read_parts_nonempty(s: Seq<char>)
    requires
        is_path_text(s),
    ensures
        split_path(s).source.len() >= 1,
        split_path(s).refspec matches Some(r) ==> r.len() >= 1,
        split_path(s).sub_folder matches Some(f) ==> f.len() >= 1,
{
    lemma_split_bounds(s);
}

} // verus!
