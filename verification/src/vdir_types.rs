//! Virtual directory paths: local folders, local archives, remote archives
//! and git repositories, read from and rendered to text.

use vstd::prelude::*;
use crate::error::Error;
use crate::path_grammar::{
    split_positions, split_path, is_path_text, refspec_starts_at, source_end, tail_start,
};
use crate::text::{chars_of, seq_starts_with, seq_ends_with};

verus! {

broadcast use vstd::string::group_string_axioms;

/// A virtual path pointing to a directory-like resource.
///
/// Supported forms:
/// - local directories (`/path/to/directory`)
/// - local archives (`/path/to/archive.zip` or `/path/to/archive.tar.gz`)
/// - remote archives (`https://example.com/archive.zip` or `.tar.gz`)
/// - git repositories (`https://github.com/user/repo.git`)
///
/// A path may name a sub-folder within an archive or repository with
/// `[sub_folder]`, and a git refspec (branch, tag or commit) with `@refspec`.
#[derive(Debug, Clone, PartialEq, Eq)]
pub enum VirtualDirectoryPath {
    /// A local folder.
    LocalFolder {
        /// Path to the folder.
        path: String,
    },
    /// A local archive.
    LocalArchive {
        /// Path to the archive.
        path: String,
        /// Sub-folder within the archive holding the content of interest.
        sub_folder: Option<String>,
    },
    /// A remote archive.
    RemoteArchive {
        /// URL of the archive.
        url: String,
        /// Sub-folder within the archive holding the content of interest.
        sub_folder: Option<String>,
    },
    /// A git repository.
    GitRepo {
        /// URL of the repository.
        url: String,
        /// Tag, branch or commit to check out.
        refspec: Option<String>,
        /// Sub-folder of the repository used as the root directory.
        sub_folder: Option<String>,
    },
}

/// The mathematical value of a virtual directory path.
pub enum PathModel {
    LocalFolder { path: Seq<char> },
    LocalArchive { path: Seq<char>, sub_folder: Option<Seq<char>> },
    RemoteArchive { url: Seq<char>, sub_folder: Option<Seq<char>> },
    GitRepo { url: Seq<char>, refspec: Option<Seq<char>>, sub_folder: Option<Seq<char>> },
}

/// The characters of an optional string.
pub open spec fn opt_chars(o: Option<String>) -> Option<Seq<char>> {
    match o {
        Some(s) => Some(s@),
        None => None,
    }
}

impl View for VirtualDirectoryPath {
    type V = PathModel;

    open spec fn view(&self) -> PathModel {
        match self {
            VirtualDirectoryPath::LocalFolder { path } => PathModel::LocalFolder { path: path@ },
            VirtualDirectoryPath::LocalArchive { path, sub_folder } => PathModel::LocalArchive {
                path: path@,
                sub_folder: opt_chars(*sub_folder),
            },
            VirtualDirectoryPath::RemoteArchive { url, sub_folder } => PathModel::RemoteArchive {
                url: url@,
                sub_folder: opt_chars(*sub_folder),
            },
            VirtualDirectoryPath::GitRepo { url, refspec, sub_folder } => PathModel::GitRepo {
                url: url@,
                refspec: opt_chars(*refspec),
                sub_folder: opt_chars(*sub_folder),
            },
        }
    }
}

/// A source is remote when it is an `http://` or `https://` URL.
pub open spec fn is_remote(source: Seq<char>) -> bool {
    seq_starts_with(source, "http://"@) || seq_starts_with(source, "https://"@)
}

/// A source is an archive when it ends with `.zip` or `.tar.gz`.
pub open spec fn is_archive(source: Seq<char>) -> bool {
    seq_ends_with(source, ".zip"@) || seq_ends_with(source, ".tar.gz"@)
}

/// The path that a text denotes, once read by the grammar. A refspec is kept
/// for git repositories only; a local folder keeps no sub-folder.
pub open spec fn read_model(s: Seq<char>) -> PathModel {
    let parts = split_path(s);
    let source = parts.source;
    if is_remote(source) {
        if is_archive(source) {
            PathModel::RemoteArchive { url: source, sub_folder: parts.sub_folder }
        } else {
            PathModel::GitRepo { url: source, refspec: parts.refspec, sub_folder: parts.sub_folder }
        }
    } else if is_archive(source) {
        PathModel::LocalArchive { path: source, sub_folder: parts.sub_folder }
    } else {
        PathModel::LocalFolder { path: source }
    }
}

/// The message reported for a text that is not a path.
pub open spec fn invalid_path_message() -> Seq<char> {
    "Invalid registry path"@
}

/// `@refspec`, or nothing.
pub open spec fn refspec_text(o: Option<Seq<char>>) -> Seq<char> {
    match o {
        Some(r) => seq!['@'] + r,
        None => Seq::empty(),
    }
}

/// `[sub_folder]`, or nothing.
pub open spec fn sub_folder_text(o: Option<Seq<char>>) -> Seq<char> {
    match o {
        Some(f) => seq!['['] + f + seq![']'],
        None => Seq::empty(),
    }
}

/// The text of a path: `source[@refspec][[sub_folder]]`.
pub open spec fn render(m: PathModel) -> Seq<char> {
    match m {
        PathModel::LocalFolder { path } => path,
        PathModel::LocalArchive { path, sub_folder } => path + sub_folder_text(sub_folder),
        PathModel::RemoteArchive { url, sub_folder } => url + sub_folder_text(sub_folder),
        PathModel::GitRepo { url, refspec, sub_folder } => url + refspec_text(refspec)
            + sub_folder_text(sub_folder),
    }
}

/// Whether the first `end` characters of `s` start with `p`.
fn head_starts_with(s: &Vec<char>, end: usize, p: &str) -> (b: bool)
    requires
        end <= s@.len(),
    ensures
        b == seq_starts_with(s@.take(end as int), p@),
{
    let pc = chars_of(p);
    let m = pc.len();
    if m > end {
        return false;
    }
    let mut i: usize = 0;
    while i < m
        invariant
            m == pc@.len(),
            pc@ == p@,
            m <= end <= s@.len(),
            i <= m,
            forall|j: int| 0 <= j < i ==> s@[j] == pc@[j],
        decreases m - i,
    {
        if s[i] != pc[i] {
            assert(s@.take(end as int).take(m as int)[i as int] != pc@[i as int]);
            assert(s@.take(end as int).take(m as int) != pc@);
            return false;
        }
        i = i + 1;
    }
    assert(s@.take(end as int).take(m as int) =~= pc@);
    true
}

/// Whether the first `end` characters of `s` end with `p`.
fn head_ends_with(s: &Vec<char>, end: usize, p: &str) -> (b: bool)
    requires
        end <= s@.len(),
    ensures
        b == seq_ends_with(s@.take(end as int), p@),
{
    let pc = chars_of(p);
    let m = pc.len();
    if m > end {
        return false;
    }
    let start = end - m;
    let mut i: usize = 0;
    while i < m
        invariant
            m == pc@.len(),
            pc@ == p@,
            m <= end <= s@.len(),
            start == end - m,
            i <= m,
            forall|j: int| 0 <= j < i ==> s@[start + j] == pc@[j],
        decreases m - i,
    {
        if s[start + i] != pc[i] {
            assert(s@.take(end as int).skip(start as int)[i as int] != pc@[i as int]);
            assert(s@.take(end as int).skip(start as int) != pc@);
            return false;
        }
        i = i + 1;
    }
    assert(s@.take(end as int).skip(start as int) =~= pc@);
    true
}

/// Whether `s` holds a line feed.
fn has_line_feed(s: &Vec<char>) -> (b: bool)
    ensures
        b == exists|i: int| 0 <= i < s@.len() && s@[i] == '\n',
{
    let mut i: usize = 0;
    while i < s.len()
        invariant
            i <= s@.len(),
            forall|j: int| 0 <= j < i ==> s@[j] != '\n',
        decreases s@.len() - i,
    {
        if s[i] == '\n' {
            return true;
        }
        i = i + 1;
    }
    false
}

/// The characters `from..to` of `s` as a string.
fn slice_text(s: &str, from: usize, to: usize) -> (r: String)
    requires
        from <= to <= s@.len(),
    ensures
        r@ == s@.subrange(from as int, to as int),
{
    s.substring_char(from, to).to_owned()
}

/// The string handed to the function of [`map_option`]: the value, or an empty string.
pub open spec fn handed_to_function(opt: Option<String>, a: String) -> bool {
    match opt {
        Some(x) => a == x,
        None => a@.len() == 0,
    }
}

/// `f` may be called on what [`map_option`] hands it.
pub open spec fn map_option_requires<F: FnOnce(String) -> String>(opt: Option<String>, f: F) -> bool {
    forall|a: String| handed_to_function(opt, a) ==> f.requires((a,))
}

/// `res` is a possible outcome of [`map_option`] on `opt` and `f`: `f` is
/// called on the value (an empty string when there is none), and an empty
/// answer means no value.
pub open spec fn map_option_outcome<F: FnOnce(String) -> String>(
    opt: Option<String>,
    f: F,
    res: Option<String>,
) -> bool {
    exists|a: String, out: String|
        handed_to_function(opt, a) && #[trigger] f.ensures((a,), out) && res == (if out@.len()
            == 0 {
            None::<String>
        } else {
            Some(out)
        })
}

/// Applies `f` to an optional string, reading a missing value as an empty
/// string and an empty result as no value.
pub fn map_option<F: FnOnce(String) -> String>(opt: Option<String>, f: F) -> (res: Option<String>)
    requires
        map_option_requires(opt, f),
    ensures
        map_option_outcome(opt, f, res),
{
    let a = match opt {
        Some(x) => x,
        None => String::new(),
    };
    assert(handed_to_function(opt, a));
    let result = f(a);
    if result.as_str().is_empty() {
        None
    } else {
        Some(result)
    }
}

/// `f` may be called on what [`VirtualDirectoryPath::map_sub_folder`] hands it.
pub open spec fn map_sub_folder_requires<F: FnOnce(String) -> String>(
    p: VirtualDirectoryPath,
    f: F,
) -> bool {
    match p {
        VirtualDirectoryPath::LocalFolder { path } => f.requires((path,)),
        VirtualDirectoryPath::LocalArchive { sub_folder, .. } => map_option_requires(sub_folder, f),
        VirtualDirectoryPath::RemoteArchive { sub_folder, .. } => map_option_requires(sub_folder, f),
        VirtualDirectoryPath::GitRepo { sub_folder, .. } => map_option_requires(sub_folder, f),
    }
}

/// `r` is a possible outcome of [`VirtualDirectoryPath::map_sub_folder`] on
/// `p` and `f`: a local folder's path is replaced by `f`'s answer on it; the
/// other kinds keep their path or URL and refspec, and their sub-folder is
/// mapped as [`map_option`] maps it.
pub open spec fn map_sub_folder_outcome<F: FnOnce(String) -> String>(
    p: VirtualDirectoryPath,
    f: F,
    r: VirtualDirectoryPath,
) -> bool {
    match p {
        VirtualDirectoryPath::LocalFolder { path } => exists|out: String|
            #[trigger] f.ensures((path,), out) && r == (VirtualDirectoryPath::LocalFolder { path: out }),
        VirtualDirectoryPath::LocalArchive { path, sub_folder } => exists|o: Option<String>|
            #[trigger] map_option_outcome(sub_folder, f, o)
                && r == (VirtualDirectoryPath::LocalArchive { path, sub_folder: o }),
        VirtualDirectoryPath::RemoteArchive { url, sub_folder } => exists|o: Option<String>|
            #[trigger] map_option_outcome(sub_folder, f, o)
                && r == (VirtualDirectoryPath::RemoteArchive { url, sub_folder: o }),
        VirtualDirectoryPath::GitRepo { url, refspec, sub_folder } => exists|o: Option<String>|
            #[trigger] map_option_outcome(sub_folder, f, o)
                && r == (VirtualDirectoryPath::GitRepo { url, refspec, sub_folder: o }),
    }
}

/// Appends `[sub_folder]` to `out` when there is a sub-folder.
fn push_sub_folder(out: &mut String, sub_folder: &Option<String>)
    ensures
        final(out)@ == old(out)@ + sub_folder_text(opt_chars(*sub_folder)),
{
    if let Some(f) = sub_folder {
        proof {
            reveal_strlit("[");
            reveal_strlit("]");
        }
        out.append("[");
        out.append(f.as_str());
        out.append("]");
    } else {
        assert(out@ =~= out@ + Seq::<char>::empty());
    }
}

/// Appends `@refspec` to `out` when there is a refspec.
fn push_refspec(out: &mut String, refspec: &Option<String>)
    ensures
        final(out)@ == old(out)@ + refspec_text(opt_chars(*refspec)),
{
    if let Some(r) = refspec {
        proof {
            reveal_strlit("@");
        }
        out.append("@");
        out.append(r.as_str());
        assert(out@ =~= old(out)@ + (seq!['@'] + r@));
    } else {
        assert(out@ =~= out@ + Seq::<char>::empty());
    }
}

impl VirtualDirectoryPath {
    /// Converts a path by changing its sub-folder with `f`.
    ///
    /// A local folder hands `f` its whole path and takes the answer as its new
    /// path. The other kinds hand `f` their sub-folder (an empty string when
    /// there is none) and keep no sub-folder when `f` answers with an empty
    /// string; their path or URL and refspec are kept.
    pub fn map_sub_folder<F: FnOnce(String) -> String>(self, f: F) -> (r: VirtualDirectoryPath)
        requires
            map_sub_folder_requires(self, f),
        ensures
            map_sub_folder_outcome(self, f, r),
    {
        match self {
            VirtualDirectoryPath::LocalFolder { path } => VirtualDirectoryPath::LocalFolder {
                path: f(path),
            },
            VirtualDirectoryPath::LocalArchive { path, sub_folder } => VirtualDirectoryPath::LocalArchive {
                path,
                sub_folder: map_option(sub_folder, f),
            },
            VirtualDirectoryPath::RemoteArchive { url, sub_folder } => VirtualDirectoryPath::RemoteArchive {
                url,
                sub_folder: map_option(sub_folder, f),
            },
            VirtualDirectoryPath::GitRepo { url, refspec, sub_folder } => VirtualDirectoryPath::GitRepo {
                url,
                refspec,
                sub_folder: map_option(sub_folder, f),
            },
        }
    }

    /// The text of the path, `source[@refspec][[sub_folder]]`, as read back by
    /// [`VirtualDirectoryPath::from_text`].
    pub fn to_string(&self) -> (r: String)
        ensures
            r@ == render(self@),
    {
        match self {
            VirtualDirectoryPath::LocalFolder { path } => path.clone(),
            VirtualDirectoryPath::LocalArchive { path, sub_folder } => {
                let mut out = path.clone();
                push_sub_folder(&mut out, sub_folder);
                out
            },
            VirtualDirectoryPath::RemoteArchive { url, sub_folder } => {
                let mut out = url.clone();
                push_sub_folder(&mut out, sub_folder);
                out
            },
            VirtualDirectoryPath::GitRepo { url, refspec, sub_folder } => {
                let mut out = url.clone();
                push_refspec(&mut out, refspec);
                push_sub_folder(&mut out, sub_folder);
                out
            },
        }
    }

    /// Reads a virtual directory path from its text, `source[@refspec][[sub_folder]]`.
    ///
    /// Any non-empty text without a line feed is a path; other texts are refused
    /// with `Error::InvalidRegistryPath`.
    pub fn from_text(s: &str) -> (r: Result<VirtualDirectoryPath, Error>)
        ensures
            r is Ok <==> is_path_text(s@),
            r matches Ok(p) ==> p@ == read_model(s@),
            r matches Err(e) ==> (e matches Error::InvalidRegistryPath { path, error }
                && path@ == s@ && error@ == invalid_path_message()),
    {
        let cs = chars_of(s);
        if cs.len() == 0 || has_line_feed(&cs) {
            return Err(
                Error::InvalidRegistryPath {
                    path: s.to_owned(),
                    error: "Invalid registry path".to_owned(),
                },
            );
        }
        let (k, t) = split_positions(&cs);
        let ghost sv = s@;
        proof {
            crate::path_grammar::lemma_split_bounds(sv);
        }
        let n = cs.len();
        let source = slice_text(s, 0, k);
        let has_refspec = k < n && k + 1 < n && cs[k] == '@';
        let refspec = if has_refspec {
            Some(slice_text(s, k + 1, t))
        } else {
            None
        };
        let sub_folder = if t == n {
            None
        } else {
            Some(slice_text(s, t + 1, n - 1))
        };
        proof {
            assert(source@ =~= sv.take(k as int));
            assert(has_refspec == refspec_starts_at(sv, k as int));
            if t < n {
                assert(sv.skip(t as int).subrange(1, sv.skip(t as int).len() - 1)
                    =~= sv.subrange(t + 1, n - 1));
            }
            assert(opt_chars(sub_folder) == split_path(sv).sub_folder);
            assert(opt_chars(refspec) == split_path(sv).refspec);
        }
        let remote = head_starts_with(&cs, k, "http://") || head_starts_with(&cs, k, "https://");
        let archive = head_ends_with(&cs, k, ".zip") || head_ends_with(&cs, k, ".tar.gz");
        if remote {
            if archive {
                Ok(VirtualDirectoryPath::RemoteArchive { url: source, sub_folder })
            } else {
                Ok(VirtualDirectoryPath::GitRepo { url: source, refspec, sub_folder })
            }
        } else if archive {
            Ok(VirtualDirectoryPath::LocalArchive { path: source, sub_folder })
        } else {
            Ok(VirtualDirectoryPath::LocalFolder { path: source })
        }
    }
}

impl std::str::FromStr for VirtualDirectoryPath {
    type Err = Error;

    fn from_str(s: &str) -> (r: Result<VirtualDirectoryPath, Error>)
        ensures
            r is Ok <==> is_path_text(s@),
            r matches Ok(p) ==> p@ == read_model(s@),
            r matches Err(e) ==> (e matches Error::InvalidRegistryPath { path, error }
                && path@ == s@ && error@ == invalid_path_message()),
    {
        VirtualDirectoryPath::from_text(s)
    }
}

impl TryFrom<String> for VirtualDirectoryPath {
    type Error = Error;

    fn try_from(s: String) -> (r: Result<VirtualDirectoryPath, Error>)
        ensures
            r is Ok <==> is_path_text(s@),
            r matches Ok(p) ==> p@ == read_model(s@),
            r matches Err(e) ==> (e matches Error::InvalidRegistryPath { path, error }
                && path@ == s@ && error@ == invalid_path_message()),
    {
        VirtualDirectoryPath::from_text(s.as_str())
    }
}

impl<'a> TryFrom<&'a str> for VirtualDirectoryPath {
    type Error = Error;

    fn try_from(s: &'a str) -> (r: Result<VirtualDirectoryPath, Error>)
        ensures
            r is Ok <==> is_path_text(s@),
            r matches Ok(p) ==> p@ == read_model(s@),
            r matches Err(e) ==> (e matches Error::InvalidRegistryPath { path, error }
                && path@ == s@ && error@ == invalid_path_message()),
    {
        VirtualDirectoryPath::from_text(s)
    }
}

impl From<VirtualDirectoryPath> for String {
    fn from(path: VirtualDirectoryPath) -> (r: String)
        ensures
            r@ == render(path@),
    {
        path.to_string()
    }
}

// `from_spec` would have to name one `String` value, and the text of a path
// fixes only the view of the string that `from` builds; what `from` returns
// is stated by the `ensures` of its impl above.
impl vstd::std_specs::convert::FromSpecImpl<VirtualDirectoryPath> for String {
    open spec fn obeys_from_spec() -> bool {
        false
    }

    open spec fn from_spec(path: VirtualDirectoryPath) -> String {
        arbitrary()
    }
}

// The strings of a path read from text are new values that no spec function
// of the input determines, so these conversions promise no spec value; what
// they return is stated by `VirtualDirectoryPath::from_text`.
impl vstd::std_specs::convert::TryFromSpecImpl<String> for VirtualDirectoryPath {
    open spec fn obeys_try_from_spec() -> bool {
        false
    }

    open spec fn try_from_spec(s: String) -> Result<VirtualDirectoryPath, Error> {
        arbitrary()
    }
}

impl<'a> vstd::std_specs::convert::TryFromSpecImpl<&'a str> for VirtualDirectoryPath {
    open spec fn obeys_try_from_spec() -> bool {
        false
    }

    open spec fn try_from_spec(s: &'a str) -> Result<VirtualDirectoryPath, Error> {
        arbitrary()
    }
}

} // verus!
