use std::str::FromStr;

use regex::Regex;
use weaver_vdir::error::Error;
use weaver_vdir::vdir_types::{map_option, VirtualDirectoryPath};

fn read(s: &str) -> VirtualDirectoryPath {
    VirtualDirectoryPath::from_text(s).expect("a path")
}

fn local_folder(path: &str) -> VirtualDirectoryPath {
    VirtualDirectoryPath::LocalFolder { path: path.to_owned() }
}

fn opt(s: Option<&str>) -> Option<String> {
    s.map(|x| x.to_owned())
}

#[test]
fn reads_local_folder() {
    assert_eq!(read("/path/to/directory"), local_folder("/path/to/directory"));
    assert_eq!(read("data"), local_folder("data"));
}

#[test]
fn reads_local_archives() {
    assert_eq!(
        read("/path/to/archive.zip"),
        VirtualDirectoryPath::LocalArchive { path: "/path/to/archive.zip".to_owned(), sub_folder: None }
    );
    assert_eq!(
        read("/path/to/archive.tar.gz[model]"),
        VirtualDirectoryPath::LocalArchive {
            path: "/path/to/archive.tar.gz".to_owned(),
            sub_folder: opt(Some("model")),
        }
    );
}

#[test]
fn reads_remote_archives() {
    assert_eq!(
        read("https://example.com/archive.zip"),
        VirtualDirectoryPath::RemoteArchive { url: "https://example.com/archive.zip".to_owned(), sub_folder: None }
    );
    assert_eq!(
        read("http://example.com/archive.tar.gz[semconv/model]"),
        VirtualDirectoryPath::RemoteArchive {
            url: "http://example.com/archive.tar.gz".to_owned(),
            sub_folder: opt(Some("semconv/model")),
        }
    );
}

#[test]
fn reads_git_repositories() {
    assert_eq!(
        read("https://github.com/open-telemetry/semantic-conventions.git"),
        VirtualDirectoryPath::GitRepo {
            url: "https://github.com/open-telemetry/semantic-conventions.git".to_owned(),
            refspec: None,
            sub_folder: None,
        }
    );
    assert_eq!(
        read("https://github.com/open-telemetry/semantic-conventions.git@v1.26.0[model]"),
        VirtualDirectoryPath::GitRepo {
            url: "https://github.com/open-telemetry/semantic-conventions.git".to_owned(),
            refspec: opt(Some("v1.26.0")),
            sub_folder: opt(Some("model")),
        }
    );
    assert_eq!(
        read("https://github.com/org/repo.git[model]"),
        VirtualDirectoryPath::GitRepo {
            url: "https://github.com/org/repo.git".to_owned(),
            refspec: None,
            sub_folder: opt(Some("model")),
        }
    );
}

#[test]
fn refspec_is_shortest_and_may_hold_at_signs() {
    assert_eq!(
        read("http://h/r@a@b"),
        VirtualDirectoryPath::GitRepo { url: "http://h/r".to_owned(), refspec: opt(Some("a@b")), sub_folder: None }
    );
    assert_eq!(
        read("http://h/r@[x]"),
        VirtualDirectoryPath::GitRepo { url: "http://h/r".to_owned(), refspec: opt(Some("[x]")), sub_folder: None }
    );
}

#[test]
fn local_kinds_drop_what_they_cannot_hold() {
    assert_eq!(read("dir@v1[sub]"), local_folder("dir"));
    assert_eq!(
        read("a.zip@v1[sub]"),
        VirtualDirectoryPath::LocalArchive { path: "a.zip".to_owned(), sub_folder: opt(Some("sub")) }
    );
}

#[test]
fn trailing_at_sign_stays_in_source() {
    assert_eq!(read("ab@"), local_folder("ab@"));
    assert_eq!(read("a[]"), local_folder("a[]"));
}

#[test]
fn refuses_empty_and_multiline_text() {
    for bad in ["", "a\nb", "\n"] {
        let err = VirtualDirectoryPath::from_text(bad).unwrap_err();
        assert_eq!(
            err,
            Error::InvalidRegistryPath { path: bad.to_owned(), error: "Invalid registry path".to_owned() }
        );
    }
}

#[test]
fn renders_every_kind() {
    assert_eq!(local_folder("/a/b").to_string(), "/a/b");
    assert_eq!(
        VirtualDirectoryPath::LocalArchive { path: "x.zip".to_owned(), sub_folder: opt(Some("m")) }.to_string(),
        "x.zip[m]"
    );
    assert_eq!(
        VirtualDirectoryPath::LocalArchive { path: "x.zip".to_owned(), sub_folder: None }.to_string(),
        "x.zip"
    );
    assert_eq!(
        VirtualDirectoryPath::RemoteArchive { url: "https://e/x.zip".to_owned(), sub_folder: opt(Some("m")) }
            .to_string(),
        "https://e/x.zip[m]"
    );
    let git = |r: Option<&str>, f: Option<&str>| VirtualDirectoryPath::GitRepo {
        url: "https://g/r.git".to_owned(),
        refspec: opt(r),
        sub_folder: opt(f),
    };
    assert_eq!(git(Some("v1"), Some("m")).to_string(), "https://g/r.git@v1[m]");
    assert_eq!(git(Some("v1"), None).to_string(), "https://g/r.git@v1");
    assert_eq!(git(None, Some("m")).to_string(), "https://g/r.git[m]");
    assert_eq!(git(None, None).to_string(), "https://g/r.git");
    assert_eq!(String::from(git(Some("main"), None)), "https://g/r.git@main");
}

#[test]
fn conversions_read_the_same_way() {
    let text = "https://github.com/org/repo.git@main[model]";
    let expected = read(text);
    assert_eq!(VirtualDirectoryPath::from_str(text).unwrap(), expected);
    assert_eq!(VirtualDirectoryPath::try_from(text).unwrap(), expected);
    assert_eq!(VirtualDirectoryPath::try_from(text.to_owned()).unwrap(), expected);
    let parsed: VirtualDirectoryPath = text.parse().unwrap();
    assert_eq!(parsed, expected);
    assert!(VirtualDirectoryPath::try_from("").is_err());
}

#[test]
fn reading_a_rendered_path_gives_it_back() {
    for text in [
        "/a/b",
        "a.zip@v[sub]",
        "https://e/x.tar.gz@v",
        "https://g/r.git@v1@v2[s[x]]",
        "dir@v1[sub]",
        "x[y]]",
        "ab@",
    ] {
        let once = read(text);
        assert_eq!(read(&once.to_string()), once);
    }
}

#[test]
fn bracket_suffixed_folder_is_read_back_with_a_sub_folder() {
    let once = read("a[bc]@x");
    assert_eq!(once, local_folder("a[bc]"));
    assert_eq!(once.to_string(), "a[bc]");
    assert_eq!(read(&once.to_string()), local_folder("a"));
}

#[test]
fn map_sub_folder_hands_local_folder_its_path() {
    let p = local_folder("/a/b").map_sub_folder(|s| format!("{s}/c"));
    assert_eq!(p, local_folder("/a/b/c"));
}

#[test]
fn map_sub_folder_changes_only_the_sub_folder() {
    let p = read("https://g/r.git@v1[model]").map_sub_folder(|s| format!("{s}/stable"));
    assert_eq!(
        p,
        VirtualDirectoryPath::GitRepo {
            url: "https://g/r.git".to_owned(),
            refspec: opt(Some("v1")),
            sub_folder: opt(Some("model/stable")),
        }
    );
    let p = read("x.zip").map_sub_folder(|s| {
        assert_eq!(s, "");
        "inner".to_owned()
    });
    assert_eq!(p, VirtualDirectoryPath::LocalArchive { path: "x.zip".to_owned(), sub_folder: opt(Some("inner")) });
    let p = read("https://e/x.zip[m]").map_sub_folder(|_| String::new());
    assert_eq!(p, VirtualDirectoryPath::RemoteArchive { url: "https://e/x.zip".to_owned(), sub_folder: None });
}

#[test]
fn map_option_reads_empty_as_none() {
    assert_eq!(map_option(None, |s| s), None);
    assert_eq!(map_option(Some("a".to_owned()), |s| s + "b"), Some("ab".to_owned()));
    assert_eq!(map_option(None, |_| "x".to_owned()), Some("x".to_owned()));
    assert_eq!(map_option(Some("a".to_owned()), |_| String::new()), None);
}

/// The same reading done with the regular expression
/// `^(?P<source>.+?)(?:@(?P<refspec>.+?))?(?:\[(?P<sub_folder>.+?)])?$`.
fn read_with_regex(re: &Regex, s: &str) -> Option<VirtualDirectoryPath> {
    let caps = re.captures(s)?;
    let source = caps.name("source")?.as_str();
    let refspec = caps.name("refspec").map(|m| m.as_str().to_owned());
    let sub_folder = caps.name("sub_folder").map(|m| m.as_str().to_owned());
    let archive = source.ends_with(".zip") || source.ends_with(".tar.gz");
    Some(if source.starts_with("http://") || source.starts_with("https://") {
        if archive {
            VirtualDirectoryPath::RemoteArchive { url: source.to_owned(), sub_folder }
        } else {
            VirtualDirectoryPath::GitRepo { url: source.to_owned(), refspec, sub_folder }
        }
    } else if archive {
        VirtualDirectoryPath::LocalArchive { path: source.to_owned(), sub_folder }
    } else {
        VirtualDirectoryPath::LocalFolder { path: source.to_owned() }
    })
}

#[test]
fn grammar_agrees_with_regular_expression() {
    let re = Regex::new(r"^(?P<source>.+?)(?:@(?P<refspec>.+?))?(?:\[(?P<sub_folder>.+?)])?$").unwrap();
    let alphabet = ['a', '@', '[', ']', '\n', 'é'];
    let mut texts: Vec<String> = vec![String::new()];
    let mut frontier: Vec<String> = vec![String::new()];
    for _ in 0..6 {
        let mut next = Vec::new();
        for t in &frontier {
            for c in alphabet {
                let mut u = t.clone();
                u.push(c);
                next.push(u);
            }
        }
        texts.extend(next.iter().cloned());
        frontier = next;
    }
    for pre in ["", "http://h", "https://h"] {
        for mid in ["x.zip", "x.tar.gz", "x.git", "[a].zip", "a@b.zip"] {
            for post in ["", "@v", "[s]", "@v[s]", "@[s]", "@v]", "[s]@v"] {
                texts.push(format!("{pre}{mid}{post}"));
            }
        }
    }
    for t in &texts {
        let ours = VirtualDirectoryPath::from_text(t).ok();
        assert_eq!(ours, read_with_regex(&re, t), "on {t:?}");
    }
}

#[test]
fn mapping_twice_is_mapping_once_with_the_composition() {
    let f = |s: String| format!("{s}/a");
    let g = |s: String| s.to_uppercase();
    for text in ["/x/y", "x.zip", "x.zip[m]", "https://e/x.zip[m]", "https://g/r.git@v1", "https://g/r.git@v1[m]"] {
        let v = read(text);
        let twice = v.clone().map_sub_folder(f).map_sub_folder(g);
        let once = v.map_sub_folder(|s| g(f(s)));
        assert_eq!(twice, once, "on {text:?}");
    }
    let empty_then = |s: String| if s.is_empty() { "z".to_owned() } else { String::new() };
    let v = read("x.zip[m]");
    assert_eq!(
        v.clone().map_sub_folder(|_| String::new()).map_sub_folder(empty_then),
        v.map_sub_folder(|_| empty_then(String::new()))
    );
}

#[test]
fn map_sub_folder_keeps_kind_and_leaves_no_empty_sub_folder() {
    let p = read("https://g/r.git@v1[m]").map_sub_folder(|_| String::new());
    assert_eq!(
        p,
        VirtualDirectoryPath::GitRepo { url: "https://g/r.git".to_owned(), refspec: opt(Some("v1")), sub_folder: None }
    );
}

#[test]
fn missing_and_empty_values_map_alike() {
    let f = |s: String| format!("{s}x");
    assert_eq!(map_option(None, f), map_option(Some(String::new()), f));
    let g = |s: String| s;
    assert_eq!(map_option(None, g), map_option(Some(String::new()), g));
}
