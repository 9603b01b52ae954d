use gitatlas::cache::{
    cache_file, config_dir, config_file, data_dir, default_root, effective_scan_roots, find_place, Config,
};
use gitatlas::models::{RepoHealth, RepoInfo};
use gitatlas::resolver::{
    every_target, looks_like_path, resolve, resolve_many, resolve_path, ManyStep, ResolveReply,
    ResolveRequest, ResolveStep, Resolving,
};
use gitatlas::scanner::{by_name, repo_paths};

fn repo(name: &str, path: &str) -> RepoInfo {
    RepoInfo {
        path: path.to_string(),
        name: name.to_string(),
        branch: "main".to_string(),
        ahead: 0,
        behind: 0,
        dirty_files: 0,
        stash_count: 0,
        health: RepoHealth::Clean,
        last_checked: "now".to_string(),
        remote_url: None,
    }
}

fn own(v: &[&str]) -> Vec<String> {
    v.iter().map(|s| s.to_string()).collect()
}

fn asked(step: ResolveStep) -> (Resolving, ResolveRequest) {
    match step {
        ResolveStep::Ask(s, r) => (s, r),
        ResolveStep::Found(p) => panic!("found {}", p),
        ResolveStep::Failed(e) => panic!("{}", e.text()),
    }
}

fn error(step: ResolveStep) -> String {
    match step {
        ResolveStep::Failed(e) => e.text(),
        _ => panic!("no error"),
    }
}

fn found(step: ResolveStep) -> String {
    match step {
        ResolveStep::Found(p) => p,
        ResolveStep::Failed(e) => panic!("{}", e.text()),
        ResolveStep::Ask(_, _) => panic!("asked"),
    }
}

#[test]
fn path_detection() {
    assert!(looks_like_path("."));
    assert!(looks_like_path("/abs/path"));
    assert!(looks_like_path("./rel"));
    assert!(looks_like_path("../up"));
    assert!(looks_like_path("~/home/repo"));
    assert!(looks_like_path("~"));

    assert!(!looks_like_path("myrepo"));
    assert!(!looks_like_path("some-name"));
}

#[test]
fn resolve_path_accepts_git_dir() {
    let (s, r) = asked(resolve_path("/tmp/resolve-ok", None));
    assert!(matches!(&r, ResolveRequest::Canonicalize(p) if p == "/tmp/resolve-ok"));
    let (s, r) = asked(s.advance(ResolveReply::Canonical(Ok("/real/resolve-ok".to_string()))));
    assert!(matches!(&r, ResolveRequest::Exists(p) if p == "/real/resolve-ok/.git"));
    assert_eq!(found(s.advance(ResolveReply::Exists(true))), "/real/resolve-ok");
}

#[test]
fn resolve_path_rejects_non_git_dir() {
    let (s, _) = asked(resolve_path("/tmp/resolve-nongit", None));
    let (s, _) = asked(s.advance(ResolveReply::Canonical(Ok("/tmp/resolve-nongit".to_string()))));
    let err = error(s.advance(ResolveReply::Exists(false)));
    assert!(err.contains("not a git repository"));
    assert_eq!(err, "Path '/tmp/resolve-nongit' is not a git repository");
}

#[test]
fn resolve_path_missing_path_errors() {
    let (s, _) = asked(resolve_path("/tmp/gitatlas-definitely-missing-xyz", None));
    let err = error(s.advance(ResolveReply::Canonical(Err("gone".to_string()))));
    assert!(err.contains("Cannot resolve"));
    assert_eq!(err, "Cannot resolve '/tmp/gitatlas-definitely-missing-xyz': gone");
}

#[test]
fn resolve_many_empty_without_all_errors() {
    match resolve_many(vec![], false, None) {
        ManyStep::Failed(e) => assert!(e.text().contains("Specify one or more repos")),
        _ => panic!(),
    }
}

#[test]
fn home_is_expanded() {
    let path = |id: &str, home: Option<&str>| match asked(resolve(id, home)).1 {
        ResolveRequest::Canonicalize(p) => p,
        _ => panic!(),
    };
    assert_eq!(path("~/code", Some("/home/me")), "/home/me/code");
    assert_eq!(path("~", Some("/home/me")), "/home/me");
    assert_eq!(path("~/code", None), "~/code");
    assert_eq!(path("~you", Some("/home/me")), "~you");
    assert_eq!(error(resolve("~", None)), "Cannot resolve home directory");
}

#[test]
fn names_are_looked_up() {
    let known = || vec![repo("Alpha", "/a"), repo("beta", "/b1"), repo("BETA", "/b2")];
    let (s, r) = asked(resolve("alpha", None));
    assert!(matches!(r, ResolveRequest::LoadCache));
    assert!(!s.accepts(&ResolveReply::Exists(true)));
    assert_eq!(found(s.advance(ResolveReply::Cache(known()))), "/a");

    let (s, _) = asked(resolve("Beta", None));
    assert_eq!(
        error(s.advance(ResolveReply::Cache(known()))),
        "Multiple repos match 'Beta':\n  beta (/b1)\n  BETA (/b2)\nSpecify the full path instead."
    );

    let (s, _) = asked(resolve("gamma", None));
    let (s, r) = asked(s.advance(ResolveReply::Cache(known())));
    assert!(matches!(&r, ResolveRequest::Exists(p) if p == "gamma/.git"));
    assert_eq!(
        error(s.advance(ResolveReply::Exists(false))),
        "No repo found matching 'gamma'. Run `gitatlas scan` or pass a path."
    );

    let (s, _) = asked(resolve("gamma", None));
    let (s, _) = asked(s.advance(ResolveReply::Cache(vec![])));
    assert_eq!(found(s.advance(ResolveReply::Exists(true))), "gamma");
}

#[test]
fn all_known_repos_are_meant() {
    let many = |repos: Vec<RepoInfo>| match resolve_many(own(&["x"]), true, None) {
        ManyStep::Ask(s, ResolveRequest::LoadCache) => s.advance(ResolveReply::Cache(repos), None),
        _ => panic!(),
    };
    match many(vec![repo("a", "/a"), repo("b", "/b")]) {
        ManyStep::Found(v) => {
            let all: Vec<(&str, &str)> =
                v.iter().map(|t| (t.name.as_str(), t.path.as_str())).collect();
            assert_eq!(all, [("a", "/a"), ("b", "/b")]);
        }
        _ => panic!(),
    }
    match many(vec![]) {
        ManyStep::Failed(e) => assert_eq!(e.text(), "Cache is empty. Run `gitatlas scan` first."),
        _ => panic!(),
    }
    assert_eq!(every_target(&vec![repo("a", "/a")]).len(), 1);
}

#[test]
fn several_repos_are_found_in_turn() {
    let step = resolve_many(own(&["one", "/two"]), false, None);
    let ManyStep::Ask(s, ResolveRequest::LoadCache) = step else { panic!() };
    let step = s.advance(ResolveReply::Cache(vec![repo("ONE", "/at/first")]), None);
    let ManyStep::Ask(s, ResolveRequest::Canonicalize(p)) = step else { panic!() };
    assert_eq!(p, "/two");
    let step = s.advance(ResolveReply::Canonical(Ok("/".to_string())), None);
    let ManyStep::Ask(s, ResolveRequest::Exists(_)) = step else { panic!() };
    let ManyStep::Found(v) = s.advance(ResolveReply::Exists(true), None) else { panic!() };
    let all: Vec<(&str, &str)> = v.iter().map(|t| (t.name.as_str(), t.path.as_str())).collect();
    assert_eq!(all, [("first", "/at/first"), ("/two", "/")]);
}

#[test]
fn the_first_failure_ends_the_search() {
    let step = resolve_many(own(&["one", "two"]), false, None);
    let ManyStep::Ask(s, _) = step else { panic!() };
    let ManyStep::Ask(s, _) = s.advance(ResolveReply::Cache(vec![]), None) else { panic!() };
    let ManyStep::Failed(e) = s.advance(ResolveReply::Exists(false), None) else { panic!() };
    assert!(e.text().starts_with("No repo found matching 'one'"));
}

#[test]
fn files_are_kept_in_the_directories_of_the_user() {
    assert_eq!(
        data_dir(Some("/home/me/.local/share")).as_deref(),
        Some("/home/me/.local/share/gitatlas")
    );
    assert_eq!(data_dir(None), None);
    assert_eq!(config_dir(Some("/home/me/.config")).as_deref(), Some("/home/me/.config/gitatlas"));
    assert_eq!(config_dir(None), None);
    assert_eq!(cache_file("/d"), "/d/cache.json");
    assert_eq!(config_file("/d"), "/d/config.json");
    assert_eq!(default_root(Some("/home/me")).as_deref(), Some("/home/me/dev"));
    assert_eq!(default_root(None), None);
}

#[test]
fn roots_default_to_dev() {
    let cfg = |v: &[&str]| Config { scan_roots: own(v) };
    assert_eq!(effective_scan_roots(cfg(&["/a"]), Some("/h"), true), own(&["/a"]));
    assert_eq!(effective_scan_roots(cfg(&[]), Some("/h"), true), own(&["/h/dev"]));
    assert!(effective_scan_roots(cfg(&[]), Some("/h"), false).is_empty());
    assert!(effective_scan_roots(cfg(&[]), None, true).is_empty());
    assert!(Config::default().scan_roots.is_empty());
}

#[test]
fn places_are_first_places() {
    let repos = vec![repo("a", "/a"), repo("b", "/b"), repo("c", "/b")];
    assert_eq!(find_place(&repos, "/b"), Some(1));
    assert_eq!(find_place(&repos, "/x"), None);
}

#[test]
fn found_paths_are_sorted_and_unique() {
    let paths = repo_paths(own(&["/z", "/a/b", "/a//b", "/a", "/a-b", "/z/"]));
    assert_eq!(paths, own(&["/a", "/a/b", "/a-b", "/z"]));
}

#[test]
fn repos_are_listed_by_name() {
    let repos = vec![repo("beta", "/1"), repo("Alpha", "/2"), repo("ALPHA", "/3"), repo("äb", "/4"), repo("ÄA", "/5")];
    let sorted = by_name(repos);
    let paths: Vec<&str> = sorted.iter().map(|r| r.path.as_str()).collect();
    assert_eq!(paths, ["/2", "/3", "/1", "/5", "/4"]);
}
