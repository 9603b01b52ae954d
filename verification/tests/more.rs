use gitatlas::git::credentials::ssh_dir;
use gitatlas::git::detail::{commit_with_date, get_file_history, RawCommit};
use gitatlas::git::operations::{
    fetch_repo_with_progress, lines_said, RemoteReply, RemoteRequest, RemoteStep,
};
use gitatlas::git::status::determine_health;
use gitatlas::models::{search_hits, RepoHealth, RepoInfo};
use gitatlas::scanner::{by_key, Keyed};
use gitatlas::tui::app::{App, Mode, SingleEvent, WorkerMsg, HISTORY_COUNT};
use gitatlas::tui::keys::{Key, KeyPress};
use gitatlas::tui::view::{margin_fits, Area};

fn repo(name: &str) -> RepoInfo {
    RepoInfo {
        path: format!("/src/{}", name),
        name: name.to_string(),
        branch: "ÄST".to_string(),
        ahead: 0,
        behind: 0,
        dirty_files: 0,
        stash_count: 0,
        health: RepoHealth::Clean,
        last_checked: "now".to_string(),
        remote_url: None,
    }
}

fn raw() -> RawCommit {
    RawCommit {
        oid: "0123456789".to_string(),
        message: None,
        author: None,
        email: None,
        seconds: 0,
        parents: vec![],
    }
}

#[test]
fn searches_hit_names_branches_and_paths() {
    assert!(search_hits("b", "abc", "x", "y"));
    assert!(search_hits("b", "x", "abc", "y"));
    assert!(search_hits("b", "x", "y", "abc"));
    assert!(!search_hits("b", "x", "y", "z"));
    assert!(search_hits("", "x", "y", "z"));
    assert!(repo("N").mentions("äst"));
    assert!(!repo("N").mentions("ÄST"));
}

#[test]
fn keys_order_repos() {
    let keyed = |key: &str, name: &str| Keyed { key: key.to_string(), repo: repo(name) };
    let sorted = by_key(vec![keyed("b", "1"), keyed("a", "2"), keyed("b", "3"), keyed("a", "4")]);
    let names: Vec<&str> = sorted.iter().map(|k| k.repo.name.as_str()).collect();
    assert_eq!(names, ["2", "4", "1", "3"]);
}

#[test]
fn commits_carry_their_date() {
    assert_eq!(commit_with_date(raw(), Some("then".to_string()), &vec![]).date, "then");
    assert_eq!(commit_with_date(raw(), None, &vec![]).date, "");
}

#[test]
fn texts_are_split_into_lines_said() {
    assert_eq!(lines_said(" a\r\r\nb "), ["a", "b"]);
    assert!(lines_said(" \n\t\r").is_empty());
}

#[test]
fn keys_are_under_home() {
    assert_eq!(ssh_dir(Some("/home/me")), "/home/me/.ssh");
    assert_eq!(ssh_dir(None), "/Users/.ssh");
}

#[test]
fn watching_changes_only_the_reports() {
    let (a, _) = fetch_repo_with_progress("/r", true);
    let (b, _) = fetch_repo_with_progress("/r", false);
    let names = || RemoteReply::Names(vec![Some("origin".to_string())]);
    let (a, ta) = a.advance(names(), None, None);
    let (b, tb) = b.advance(names(), None, None);
    assert_eq!((ta.events.len(), tb.events.len()), (1, 0));
    assert!(matches!(&ta.step, RemoteStep::Ask(RemoteRequest::ReadRemote(n)) if n == "origin"));
    assert!(matches!(&tb.step, RemoteStep::Ask(RemoteRequest::ReadRemote(n)) if n == "origin"));
    let remote = || RemoteReply::Remote { url: None, refspecs: vec![] };
    let (a, _) = a.advance(remote(), None, None);
    let (b, _) = b.advance(remote(), None, None);
    let (_, ta) = a.advance(RemoteReply::Done, None, None);
    let (_, tb) = b.advance(RemoteReply::Done, None, None);
    assert!(matches!((ta.step, tb.step), (RemoteStep::Done, RemoteStep::Done)));
}

#[test]
fn more_local_work_keeps_the_health() {
    for behind in [0, 1, 5] {
        assert_eq!(determine_health(1, behind, 0), determine_health(7, behind, 3));
        assert_eq!(determine_health(0, behind, 1), determine_health(0, behind, 9));
    }
}

#[test]
fn a_file_that_never_was_has_no_history() {
    let mut h = get_file_history(3);
    for _ in 0..5 {
        h.visit(raw(), None, &vec![None], &vec![]);
    }
    assert!(!h.over);
    assert!(h.commits.is_empty());
}

#[test]
fn keys_and_events_keep_the_list() {
    let mut app = App::new(vec![repo("a"), repo("b")]);
    let paths = |app: &App| app.repos.iter().map(|r| r.path.clone()).collect::<Vec<_>>();
    let before = paths(&app);
    for c in "jkgGacdvefR?q/xs".chars() {
        app.handle_key(KeyPress { key: Key::Char(c), ctrl: false }, 0);
    }
    app.mode = Mode::Dashboard;
    app.drain_single(SingleEvent::Done(Ok(repo("a"))), 0);
    app.handle_key(KeyPress { key: Key::Char('F'), ctrl: false }, 0);
    app.drain_worker(
        WorkerMsg::Done { path: "/src/b".to_string(), error: None, updated: repo("b") },
        0,
    );
    assert_eq!(paths(&app), before);
    assert_eq!(HISTORY_COUNT, 200);
}

#[test]
fn boxes_may_be_out_of_reach() {
    let area = Area { x: 65_000, y: 0, width: 2_000, height: 10 };
    assert!(!margin_fits(10, 4, area));
    assert!(margin_fits(10, 4, Area { x: 0, ..area }));
}
