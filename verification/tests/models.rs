use gitatlas::git::status::{determine_health, get_repo_info, upstream_ref, RepoProbe};
use gitatlas::models::{health_name, FileStatus, RepoHealth};

#[test]
fn repo_health_parse_known_values() {
    assert_eq!(RepoHealth::parse("clean"), Some(RepoHealth::Clean));
    assert_eq!(RepoHealth::parse("dirty"), Some(RepoHealth::Dirty));
    assert_eq!(RepoHealth::parse("changes"), Some(RepoHealth::Dirty));
    assert_eq!(RepoHealth::parse("diverged"), Some(RepoHealth::Diverged));
    assert_eq!(RepoHealth::parse("error"), Some(RepoHealth::Error));
}

#[test]
fn repo_health_parse_is_case_insensitive() {
    assert_eq!(RepoHealth::parse("CLEAN"), Some(RepoHealth::Clean));
    assert_eq!(RepoHealth::parse("Dirty"), Some(RepoHealth::Dirty));
    assert_eq!(RepoHealth::parse("Diverged"), Some(RepoHealth::Diverged));
}

#[test]
fn repo_health_parse_unknown_is_none() {
    assert_eq!(RepoHealth::parse("healthy"), None);
    assert_eq!(RepoHealth::parse(""), None);
    assert_eq!(RepoHealth::parse("conflict"), None);
}

#[test]
fn file_status_short_codes() {
    assert_eq!(FileStatus::Added.short(), "A");
    assert_eq!(FileStatus::Modified.short(), "M");
    assert_eq!(FileStatus::Deleted.short(), "D");
    assert_eq!(FileStatus::Renamed.short(), "R");
    assert_eq!(FileStatus::Untracked.short(), "?");
    assert_eq!(FileStatus::Conflicted.short(), "U");
}

#[test]
fn health_clean_when_in_sync() {
    assert_eq!(determine_health(0, 0, 0), RepoHealth::Clean);
}

#[test]
fn health_dirty_with_local_only_changes() {
    assert_eq!(determine_health(1, 0, 0), RepoHealth::Dirty);
    assert_eq!(determine_health(0, 0, 5), RepoHealth::Dirty);
    assert_eq!(determine_health(2, 0, 3), RepoHealth::Dirty);
}

#[test]
fn health_behind_only_reports_clean() {
    assert_eq!(determine_health(0, 4, 0), RepoHealth::Clean);
}

#[test]
fn health_diverged_when_behind_and_local_changes() {
    assert_eq!(determine_health(1, 1, 0), RepoHealth::Diverged);
    assert_eq!(determine_health(0, 1, 2), RepoHealth::Diverged);
    assert_eq!(determine_health(3, 2, 1), RepoHealth::Diverged);
}

#[test]
fn health_names_read_back() {
    for h in [RepoHealth::Clean, RepoHealth::Dirty, RepoHealth::Diverged, RepoHealth::Error] {
        assert_eq!(RepoHealth::parse(health_name(h)), Some(h));
        assert_eq!(RepoHealth::parse(&health_name(h).to_uppercase()), Some(h));
    }
}

#[test]
fn info_of_a_repo_that_cannot_be_opened() {
    let r = get_repo_info("/src/thing/", "now".to_string(), None);
    assert_eq!(r.path, "/src/thing/");
    assert_eq!(r.name, "thing");
    assert_eq!(r.branch, "unknown");
    assert_eq!((r.ahead, r.behind, r.dirty_files, r.stash_count), (0, 0, 0, 0));
    assert_eq!(r.health, RepoHealth::Error);
    assert_eq!(r.last_checked, "now");
    assert_eq!(r.remote_url, None);
}

#[test]
fn info_of_a_diverged_repo() {
    let probe = RepoProbe {
        head_name: Some("main".to_string()),
        ahead_behind: Some((2, 3)),
        dirty_files: Some(4),
        stash_count: 5,
        origin_url: Some("git@h:p".to_string()),
    };
    let r = get_repo_info("/src/thing", "now".to_string(), Some(probe));
    assert_eq!(r.branch, "main");
    assert_eq!((r.ahead, r.behind, r.dirty_files, r.stash_count), (2, 3, 4, 5));
    assert_eq!(r.health, RepoHealth::Diverged);
    assert_eq!(r.remote_url.as_deref(), Some("git@h:p"));
}

#[test]
fn info_of_a_detached_repo() {
    let probe = RepoProbe {
        head_name: None,
        ahead_behind: None,
        dirty_files: None,
        stash_count: 0,
        origin_url: None,
    };
    let r = get_repo_info("/", "now".to_string(), Some(probe));
    assert_eq!(r.name, "unknown");
    assert_eq!(r.branch, "HEAD (detached)");
    assert_eq!(r.health, RepoHealth::Clean);
}

#[test]
fn counts_are_kept_in_32_bits() {
    let probe = RepoProbe {
        head_name: None,
        ahead_behind: Some((0x1_0000_0007, 0)),
        dirty_files: Some(0x1_0000_0000),
        stash_count: 0,
        origin_url: None,
    };
    let r = get_repo_info("/x", "now".to_string(), Some(probe));
    assert_eq!((r.ahead, r.dirty_files), (7, 0));
    assert_eq!(r.health, RepoHealth::Dirty);
}

#[test]
fn upstream_needs_a_commit_and_a_name() {
    let main = Some("main".to_string());
    assert_eq!(upstream_ref(true, &main).as_deref(), Some("refs/remotes/origin/main"));
    assert_eq!(upstream_ref(false, &main), None);
    assert_eq!(upstream_ref(true, &None), None);
}
