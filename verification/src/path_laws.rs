//! What reading, rendering and sub-folder mapping of virtual directory paths
//! do, stated directly on their inputs and results.

use vstd::prelude::*;
use crate::path_grammar::{
    valid_tail, splits_at, source_end, tail_start, split_path, is_path_text, refspec_starts_at,
    lemma_split_bounds, lemma_first_split_is,
};
use crate::text::{seq_starts_with, seq_ends_with};
use crate::vdir_types::{VirtualDirectoryPath, PathModel, read_model, render, map_sub_folder_outcome};

verus! {

/// The kind of a path read from text depends only on its source's prefix and
/// suffix, whatever its length: an `http://` or `https://` source is a remote
/// archive when it ends in `.zip` or `.tar.gz` and a git repository otherwise;
/// any other source is a local archive when it ends in `.zip` or `.tar.gz`
/// and a local folder otherwise. A refspec is kept for git repositories only,
/// and a local folder keeps no sub-folder.
pub proof fn lemma_kind_by_source(s: Seq<char>)
    ensures
        ({
            let parts = split_path(s);
            let src = parts.source;
            let remote = seq_starts_with(src, "http://"@) || seq_starts_with(src, "https://"@);
            let archive = seq_ends_with(src, ".zip"@) || seq_ends_with(src, ".tar.gz"@);
            &&& remote && archive ==> read_model(s) == PathModel::RemoteArchive {
                url: src,
                sub_folder: parts.sub_folder,
            }
            &&& remote && !archive ==> read_model(s) == PathModel::GitRepo {
                url: src,
                refspec: parts.refspec,
                sub_folder: parts.sub_folder,
            }
            &&& !remote && archive ==> read_model(s) == PathModel::LocalArchive {
                path: src,
                sub_folder: parts.sub_folder,
            }
            &&& !remote && !archive ==> read_model(s) == PathModel::LocalFolder { path: src }
        }),
{
}

/// A path text is exactly its source, then `@` and the refspec when there is
/// one, then the sub-folder in brackets when there is one.
pub proof fn lemma_split_reassembles(s: Seq<char>)
    requires
        is_path_text(s),
    ensures
        ({
            let parts = split_path(s);
            let at_refspec = match parts.refspec {
                Some(r) => seq!['@'] + r,
                None => Seq::<char>::empty(),
            };
            let bracketed = match parts.sub_folder {
                Some(f) => seq!['['] + f + seq![']'],
                None => Seq::<char>::empty(),
            };
            s == parts.source + at_refspec + bracketed
        }),
{
    let k = source_end(s);
    let t = tail_start(s);
    lemma_split_bounds(s);
    let parts = split_path(s);
    let at_refspec = match parts.refspec {
        Some(r) => seq!['@'] + r,
        None => Seq::<char>::empty(),
    };
    let bracketed = match parts.sub_folder {
        Some(f) => seq!['['] + f + seq![']'],
        None => Seq::<char>::empty(),
    };
    assert(at_refspec =~= s.subrange(k, t));
    assert(valid_tail(s.skip(t)));
    assert(bracketed =~= s.skip(t));
    assert(s =~= s.take(k) + s.subrange(k, t) + s.skip(t));
}

/// The source is as short as it can be and the refspec as short as it can be:
/// before the end of the source, no `@` is followed by more text and no `[`
/// opens a bracketed ending of the text; there is a refspec exactly when the
/// source is followed by `@` and more text; and before the end of the refspec
/// no `[` opens a bracketed ending of the text.
pub proof fn lemma_shortest_parts(s: Seq<char>)
    requires
        is_path_text(s),
    ensures
        ({
            let parts = split_path(s);
            let k = parts.source.len() as int;
            &&& forall|j: int|
                1 <= j < k ==> !(#[trigger] s[j] == '@' && j + 1 < s.len()) && !(s[j] == '['
                    && s.last() == ']' && j + 3 <= s.len())
            &&& parts.refspec is Some <==> (k + 1 < s.len() && s[k] == '@')
            &&& parts.refspec matches Some(r) ==> forall|j: int|
                k + 2 <= j < k + 1 + r.len() ==> !(#[trigger] s[j] == '[' && s.last() == ']' && j
                    + 3 <= s.len())
        }),
{
    let k = source_end(s);
    lemma_split_bounds(s);
    assert forall|j: int| 1 <= j < k implies !(#[trigger] s[j] == '@' && j + 1 < s.len()) && !(
    s[j] == '[' && s.last() == ']' && j + 3 <= s.len()) by {
        crate::path_grammar::lemma_first_split_min(s, 1, j);
        assert(s.skip(j)[0] == s[j]);
        assert(s.skip(j).last() == s.last());
    }
    if refspec_starts_at(s, k) {
        let t = tail_start(s);
        assert forall|j: int| k + 2 <= j < t implies !(#[trigger] s[j] == '[' && s.last() == ']'
            && j + 3 <= s.len()) by {
            crate::path_grammar::lemma_first_tail_min(s, k + 2, j);
            assert(s.skip(j)[0] == s[j]);
            assert(s.skip(j).last() == s.last());
        }
    }
}

/// A text with no `@` and no `[` is read whole as its source.
pub proof fn lemma_plain_text_is_source(s: Seq<char>)
    requires
        is_path_text(s),
        forall|i: int| 0 <= i < s.len() ==> s[i] != '@' && s[i] != '[',
    ensures
        split_path(s).source == s,
        split_path(s).refspec is None,
        split_path(s).sub_folder is None,
{
    assert forall|j: int| 1 <= j < s.len() implies !splits_at(s, j) by {
        assert(s.skip(j)[0] == s[j]);
    }
    assert(s.skip(s.len() as int).len() == 0);
    lemma_first_split_is(s, 1, s.len() as int);
    assert(!refspec_starts_at(s, s.len() as int));
    assert(s.take(s.len() as int) =~= s);
}

/// The text of each kind of path, for every path, URL, refspec and sub-folder:
/// a local folder is its path unchanged; the other kinds are their path or
/// URL, then `@` and the refspec (git repositories only), then the sub-folder
/// in brackets.
pub proof fn lemma_render_forms(p: Seq<char>, r: Seq<char>, f: Seq<char>)
    ensures
        render(PathModel::LocalFolder { path: p }) == p,
        render(PathModel::LocalArchive { path: p, sub_folder: None }) == p,
        render(PathModel::LocalArchive { path: p, sub_folder: Some(f) }) == p + seq!['['] + f
            + seq![']'],
        render(PathModel::RemoteArchive { url: p, sub_folder: None }) == p,
        render(PathModel::RemoteArchive { url: p, sub_folder: Some(f) }) == p + seq!['['] + f
            + seq![']'],
        render(PathModel::GitRepo { url: p, refspec: None, sub_folder: None }) == p,
        render(PathModel::GitRepo { url: p, refspec: Some(r), sub_folder: None }) == p + seq!['@']
            + r,
        render(PathModel::GitRepo { url: p, refspec: None, sub_folder: Some(f) }) == p + seq!['[']
            + f + seq![']'],
        render(PathModel::GitRepo { url: p, refspec: Some(r), sub_folder: Some(f) }) == p + seq![
            '@',
        ] + r + seq!['['] + f + seq![']'],
{
    assert(p + Seq::<char>::empty() =~= p);
    assert(p + Seq::<char>::empty() + Seq::<char>::empty() =~= p);
    assert(p + (seq!['['] + f + seq![']']) =~= p + seq!['['] + f + seq![']']);
    assert(p + (seq!['@'] + r) + Seq::<char>::empty() =~= p + seq!['@'] + r);
    assert(p + Seq::<char>::empty() + (seq!['['] + f + seq![']']) =~= p + seq!['['] + f + seq![
        ']',
    ]);
    assert(p + (seq!['@'] + r) + (seq!['['] + f + seq![']']) =~= p + seq!['@'] + r + seq!['[']
        + f + seq![']']);
}

/// [`crate::vdir_types::map_option`] calls `f` on the value, or on an empty
/// string when there is none, and gives no value exactly when `f` answers with
/// an empty string, else `f`'s answer.
pub proof fn lemma_map_option_result<F: FnOnce(String) -> String>(
    opt: Option<String>,
    f: F,
    r: Option<String>,
)
    requires
        crate::vdir_types::map_option_outcome(opt, f, r),
    ensures
        exists|a: String, out: String|
            (match opt {
                Some(x) => a == x,
                None => a@.len() == 0,
            }) && #[trigger] f.ensures((a,), out) && r == (if out@.len() == 0 {
                None::<String>
            } else {
                Some(out)
            }),
{
    let (a, out) = choose|a: String, out: String|
        crate::vdir_types::handed_to_function(opt, a) && #[trigger] f.ensures((a,), out) && r == (
        if out@.len() == 0 {
            None::<String>
        } else {
            Some(out)
        });
    assert(f.ensures((a,), out));
}

/// [`VirtualDirectoryPath::map_sub_folder`] calls `f` on a local folder's
/// whole path and takes the answer as the new path; every other kind, git
/// repositories with or without a refspec alike, keeps its path or URL and
/// refspec, calls `f` on its sub-folder (an empty string when there is none),
/// and keeps no sub-folder exactly when `f` answers with an empty string.
pub proof fn lemma_map_sub_folder_result<F: FnOnce(String) -> String>(
    p: VirtualDirectoryPath,
    f: F,
    r: VirtualDirectoryPath,
)
    requires
        map_sub_folder_outcome(p, f, r),
    ensures
        match p {
            VirtualDirectoryPath::LocalFolder { path } => exists|out: String|
                #[trigger] f.ensures((path,), out) && r == (VirtualDirectoryPath::LocalFolder {
                    path: out,
                }),
            VirtualDirectoryPath::LocalArchive { path, sub_folder } => exists|a: String, out: String|
                (match sub_folder {
                    Some(x) => a == x,
                    None => a@.len() == 0,
                }) && #[trigger] f.ensures((a,), out) && r == (VirtualDirectoryPath::LocalArchive {
                    path,
                    sub_folder: if out@.len() == 0 {
                        None
                    } else {
                        Some(out)
                    },
                }),
            VirtualDirectoryPath::RemoteArchive { url, sub_folder } => exists|a: String, out: String|
                (match sub_folder {
                    Some(x) => a == x,
                    None => a@.len() == 0,
                }) && #[trigger] f.ensures((a,), out) && r == (VirtualDirectoryPath::RemoteArchive {
                    url,
                    sub_folder: if out@.len() == 0 {
                        None
                    } else {
                        Some(out)
                    },
                }),
            VirtualDirectoryPath::GitRepo { url, refspec, sub_folder } => exists|a: String, out: String|
                (match sub_folder {
                    Some(x) => a == x,
                    None => a@.len() == 0,
                }) && #[trigger] f.ensures((a,), out) && r == (VirtualDirectoryPath::GitRepo {
                    url, refspec,
                    sub_folder: if out@.len() == 0 {
                        None
                    } else {
                        Some(out)
                    },
                }),
        },
{
    match p {
        VirtualDirectoryPath::LocalFolder { .. } => {},
        VirtualDirectoryPath::LocalArchive { path, sub_folder } => {
            let o = choose|o: Option<String>|
                #[trigger] crate::vdir_types::map_option_outcome(sub_folder, f, o) && r == (
                VirtualDirectoryPath::LocalArchive { path, sub_folder: o });
            let (a, out) = choose|a: String, out: String|
                crate::vdir_types::handed_to_function(sub_folder, a) && #[trigger] f.ensures((a,), out)
                    && o == (if out@.len() == 0 {
                    None::<String>
                } else {
                    Some(out)
                });
            assert(f.ensures((a,), out));
        },
        VirtualDirectoryPath::RemoteArchive { url, sub_folder } => {
            let o = choose|o: Option<String>|
                #[trigger] crate::vdir_types::map_option_outcome(sub_folder, f, o) && r == (
                VirtualDirectoryPath::RemoteArchive { url, sub_folder: o });
            let (a, out) = choose|a: String, out: String|
                crate::vdir_types::handed_to_function(sub_folder, a) && #[trigger] f.ensures((a,), out)
                    && o == (if out@.len() == 0 {
                    None::<String>
                } else {
                    Some(out)
                });
            assert(f.ensures((a,), out));
        },
        VirtualDirectoryPath::GitRepo { url, refspec, sub_folder } => {
            let o = choose|o: Option<String>|
                #[trigger] crate::vdir_types::map_option_outcome(sub_folder, f, o) && r == (
                VirtualDirectoryPath::GitRepo { url, refspec, sub_folder: o });
            let (a, out) = choose|a: String, out: String|
                crate::vdir_types::handed_to_function(sub_folder, a) && #[trigger] f.ensures((a,), out)
                    && o == (if out@.len() == 0 {
                    None::<String>
                } else {
                    Some(out)
                });
            assert(f.ensures((a,), out));
        },
    }
}

} // verus!
