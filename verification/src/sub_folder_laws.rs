//! Laws of [`map_option`] and [`VirtualDirectoryPath::map_sub_folder`].

use vstd::prelude::*;
use crate::vdir_types::{
    VirtualDirectoryPath, PathModel, opt_chars, handed_to_function, map_option_outcome,
    map_sub_folder_outcome,
};

verus! {

/// `f` answers texts with equal characters with texts with equal characters.
pub open spec fn deterministic<F: FnOnce(String) -> String>(f: F) -> bool {
    forall|a: String, b: String, o1: String, o2: String|
        a@ == b@ && #[trigger] f.ensures((a,), o1) && #[trigger] f.ensures((b,), o2) ==> o1@ == o2@
}

/// Every answer of `h` is an answer of `g` on an answer of `f`, as for `|s| g(f(s))`.
pub open spec fn composes<F, G, H>(h: H, f: F, g: G) -> bool where
    F: FnOnce(String) -> String,
    G: FnOnce(String) -> String,
    H: FnOnce(String) -> String,
 {
    forall|a: String, o: String| #[trigger] h.ensures((a,), o) ==> exists|m: String|
        #[trigger] f.ensures((a,), m) && g.ensures((m,), o)
}

/// Two paths of the same kind.
pub open spec fn same_kind(a: PathModel, b: PathModel) -> bool {
    match (a, b) {
        (PathModel::LocalFolder { .. }, PathModel::LocalFolder { .. }) => true,
        (PathModel::LocalArchive { .. }, PathModel::LocalArchive { .. }) => true,
        (PathModel::RemoteArchive { .. }, PathModel::RemoteArchive { .. }) => true,
        (PathModel::GitRepo { .. }, PathModel::GitRepo { .. }) => true,
        _ => false,
    }
}

/// A sub-folder, when there is one, is not empty.
pub open spec fn no_empty_sub_folder(m: PathModel) -> bool {
    match m {
        PathModel::LocalFolder { .. } => true,
        PathModel::LocalArchive { sub_folder, .. } => sub_folder matches Some(x) ==> x.len() > 0,
        PathModel::RemoteArchive { sub_folder, .. } => sub_folder matches Some(x) ==> x.len() > 0,
        PathModel::GitRepo { sub_folder, .. } => sub_folder matches Some(x) ==> x.len() > 0,
    }
}

/// What [`map_option`] gives is never an empty text.
pub proof fn lemma_map_option_never_empty<F: FnOnce(String) -> String>(
    opt: Option<String>,
    f: F,
    r: Option<String>,
)
    requires
        map_option_outcome(opt, f, r),
    ensures
        r matches Some(x) ==> x@.len() > 0,
{
}

/// For a deterministic `f`, [`map_option`] treats a missing value and an
/// empty one alike.
pub proof fn lemma_map_option_missing_is_empty<F: FnOnce(String) -> String>(
    f: F,
    e: String,
    r1: Option<String>,
    r2: Option<String>,
)
    requires
        deterministic(f),
        e@.len() == 0,
        map_option_outcome(None, f, r1),
        map_option_outcome(Some(e), f, r2),
    ensures
        opt_chars(r1) == opt_chars(r2),
{
    let (a1, o1) = choose|a: String, out: String|
        handed_to_function(None, a) && #[trigger] f.ensures((a,), out) && r1 == (if out@.len()
            == 0 {
            None::<String>
        } else {
            Some(out)
        });
    let (a2, o2) = choose|a: String, out: String|
        handed_to_function(Some(e), a) && #[trigger] f.ensures((a,), out) && r2 == (if out@.len()
            == 0 {
            None::<String>
        } else {
            Some(out)
        });
    assert(a1@ =~= a2@);
    assert(o1@ == o2@);
}

/// Mapping twice with deterministic functions maps as once with the second
/// applied to the first, on what [`map_option`] gives.
proof fn lemma_map_option_compose<F, G, H>(
    opt: Option<String>,
    f: F,
    g: G,
    h: H,
    r1: Option<String>,
    r2: Option<String>,
    r3: Option<String>,
) where
    F: FnOnce(String) -> String,
    G: FnOnce(String) -> String,
    H: FnOnce(String) -> String,

    requires
        deterministic(f),
        deterministic(g),
        composes(h, f, g),
        map_option_outcome(opt, f, r1),
        map_option_outcome(r1, g, r2),
        map_option_outcome(opt, h, r3),
    ensures
        opt_chars(r2) == opt_chars(r3),
{
    let (a1, o1) = choose|a: String, out: String|
        handed_to_function(opt, a) && #[trigger] f.ensures((a,), out) && r1 == (if out@.len()
            == 0 {
            None::<String>
        } else {
            Some(out)
        });
    let (a2, o2) = choose|a: String, out: String|
        handed_to_function(r1, a) && #[trigger] g.ensures((a,), out) && r2 == (if out@.len()
            == 0 {
            None::<String>
        } else {
            Some(out)
        });
    let (a3, o3) = choose|a: String, out: String|
        handed_to_function(opt, a) && #[trigger] h.ensures((a,), out) && r3 == (if out@.len()
            == 0 {
            None::<String>
        } else {
            Some(out)
        });
    let m = choose|m: String| #[trigger] f.ensures((a3,), m) && g.ensures((m,), o3);
    assert(a1@ =~= a3@);
    assert(o1@ == m@);
    assert(a2@ =~= m@);
    assert(o2@ == o3@);
}

/// [`VirtualDirectoryPath::map_sub_folder`] keeps the kind of a path and
/// never leaves an empty sub-folder.
pub proof fn lemma_map_sub_folder_shape<F: FnOnce(String) -> String>(
    p: VirtualDirectoryPath,
    f: F,
    r: VirtualDirectoryPath,
)
    requires
        map_sub_folder_outcome(p, f, r),
    ensures
        same_kind(p@, r@),
        no_empty_sub_folder(r@),
{
}

/// Mapping the sub-folder with a deterministic `f`, then with a deterministic
/// `g`, gives the same path as mapping it once with `|s| g(f(s))`.
pub proof fn lemma_map_sub_folder_compose<F, G, H>(
    p: VirtualDirectoryPath,
    f: F,
    g: G,
    h: H,
    r1: VirtualDirectoryPath,
    r2: VirtualDirectoryPath,
    r3: VirtualDirectoryPath,
) where
    F: FnOnce(String) -> String,
    G: FnOnce(String) -> String,
    H: FnOnce(String) -> String,

    requires
        deterministic(f),
        deterministic(g),
        composes(h, f, g),
        map_sub_folder_outcome(p, f, r1),
        map_sub_folder_outcome(r1, g, r2),
        map_sub_folder_outcome(p, h, r3),
    ensures
        r2@ == r3@,
{
    match p {
        VirtualDirectoryPath::LocalFolder { path } => {
            let o1 = choose|out: String|
                #[trigger] f.ensures((path,), out) && r1 == (VirtualDirectoryPath::LocalFolder {
                    path: out,
                });
            let o2 = choose|out: String|
                #[trigger] g.ensures((o1,), out) && r2 == (VirtualDirectoryPath::LocalFolder {
                    path: out,
                });
            let o3 = choose|out: String|
                #[trigger] h.ensures((path,), out) && r3 == (VirtualDirectoryPath::LocalFolder {
                    path: out,
                });
            let m = choose|m: String| #[trigger] f.ensures((path,), m) && g.ensures((m,), o3);
            assert(o1@ == m@);
            assert(o2@ == o3@);
        },
        VirtualDirectoryPath::LocalArchive { path, sub_folder } => {
            let s1 = choose|o: Option<String>|
                #[trigger] map_option_outcome(sub_folder, f, o)
                    && r1 == (VirtualDirectoryPath::LocalArchive { path, sub_folder: o });
            let s2 = choose|o: Option<String>|
                #[trigger] map_option_outcome(s1, g, o)
                    && r2 == (VirtualDirectoryPath::LocalArchive { path, sub_folder: o });
            let s3 = choose|o: Option<String>|
                #[trigger] map_option_outcome(sub_folder, h, o)
                    && r3 == (VirtualDirectoryPath::LocalArchive { path, sub_folder: o });
            lemma_map_option_compose(sub_folder, f, g, h, s1, s2, s3);
        },
        VirtualDirectoryPath::RemoteArchive { url, sub_folder } => {
            let s1 = choose|o: Option<String>|
                #[trigger] map_option_outcome(sub_folder, f, o)
                    && r1 == (VirtualDirectoryPath::RemoteArchive { url, sub_folder: o });
            let s2 = choose|o: Option<String>|
                #[trigger] map_option_outcome(s1, g, o)
                    && r2 == (VirtualDirectoryPath::RemoteArchive { url, sub_folder: o });
            let s3 = choose|o: Option<String>|
                #[trigger] map_option_outcome(sub_folder, h, o)
                    && r3 == (VirtualDirectoryPath::RemoteArchive { url, sub_folder: o });
            lemma_map_option_compose(sub_folder, f, g, h, s1, s2, s3);
        },
        VirtualDirectoryPath::GitRepo { url, refspec, sub_folder } => {
            let s1 = choose|o: Option<String>|
                #[trigger] map_option_outcome(sub_folder, f, o)
                    && r1 == (VirtualDirectoryPath::GitRepo { url, refspec, sub_folder: o });
            let s2 = choose|o: Option<String>|
                #[trigger] map_option_outcome(s1, g, o)
                    && r2 == (VirtualDirectoryPath::GitRepo { url, refspec, sub_folder: o });
            let s3 = choose|o: Option<String>|
                #[trigger] map_option_outcome(sub_folder, h, o)
                    && r3 == (VirtualDirectoryPath::GitRepo { url, refspec, sub_folder: o });
            lemma_map_option_compose(sub_folder, f, g, h, s1, s2, s3);
        },
    }
}

} // verus!
