use gitatlas::error::AppError;
use gitatlas::git::detail::{
    build_ref_map, checkout_target, commit_id, commit_info, file_in_repo, get_branches,
    get_commit_diff, get_commit_files, get_commit_log, get_file_changes, get_file_diff,
    get_file_history, get_git_profile, get_pr_url, get_readme, get_workdir_diff, labels_of,
    merge_branch, merge_result, origin_url, readme_error, readme_names, remote_info,
    squash_commits, squash_step, stage_files, stash_message, touches_file, unstaging, CommitDelta,
    DeltaKind,
    HeadTarget, IndexEdit, MergePlan, PatchLine, RawBranch, RawCommit, RawTag, SquashReply,
    SquashRequest, SquashStep, StatusEntry, StatusFlags, Unstaging,
};
use gitatlas::models::{FileStatus, RefKind};

fn own(s: &str) -> Option<String> {
    Some(s.to_string())
}

fn raw(oid: &str, message: Option<&str>) -> RawCommit {
    RawCommit {
        oid: oid.to_string(),
        message: message.map(|m| m.to_string()),
        author: own("Ann"),
        email: own("ann@x"),
        seconds: 0,
        parents: vec!["0123456789abcdef".to_string()],
    }
}

fn branch(name: Option<&str>, remote: bool, target: Option<&str>) -> RawBranch {
    RawBranch {
        name: name.map(|n| n.to_string()),
        remote,
        target: target.map(|t| t.to_string()),
        upstream: None,
    }
}

const NONE: StatusFlags = StatusFlags {
    index_new: false,
    index_modified: false,
    index_deleted: false,
    index_renamed: false,
    wt_new: false,
    wt_modified: false,
    wt_deleted: false,
    wt_renamed: false,
    conflicted: false,
};

#[test]
fn ids_are_read_and_filled_up() {
    assert_eq!(commit_id("AB").ok().unwrap(), format!("ab{}", "0".repeat(38)));
    let full = "0123456789abcdef0123456789abcdef01234567";
    assert_eq!(commit_id(full).ok().unwrap(), full);
    let twenty_one = "ä".repeat(21);
    for (bad, why) in [
        ("", "too short"),
        ("xyz", "contains invalid characters"),
        ("main", "contains invalid characters"),
        ("0123456789abcdef0123456789abcdef012345678", "too long"),
        ("ä", "contains invalid characters"),
        (twenty_one.as_str(), "too long"),
    ] {
        let e = commit_id(bad).err().unwrap();
        let text = format!("Git error: unable to parse OID - {}; class=Invalid (3)", why);
        assert_eq!(e.text(), text);
    }
}

#[test]
fn commits_are_shown() {
    let entries = build_ref_map(
        Some("aaaaaaaaaa"),
        Some("main"),
        &vec![
            branch(Some("main"), false, Some("aaaaaaaaaa")),
            branch(Some("origin/main"), true, Some("aaaaaaaaaa")),
            branch(Some("other"), false, Some("bbbbbbbbbb")),
            branch(None, false, Some("aaaaaaaaaa")),
            branch(Some("lost"), false, None),
        ],
        &vec![
            RawTag { name: "v1".to_string(), target: own("aaaaaaaaaa") },
            RawTag { name: "v2".to_string(), target: None },
        ],
    );
    assert_eq!(entries.len(), 4);
    let c = commit_info(raw("aaaaaaaaaa", Some("  hello\n\nworld\n")), &entries);
    assert_eq!(c.short_oid, "aaaaaaa");
    assert_eq!(c.message, "hello\n\nworld");
    assert_eq!(c.author, "Ann");
    assert_eq!(c.author_email, "ann@x");
    assert_eq!(c.date, "1970-01-01T00:00:00+00:00");
    assert_eq!(c.parents, ["0123456"]);
    let refs: Vec<(String, RefKind)> = c.refs.iter().map(|r| (r.name.clone(), r.kind)).collect();
    assert_eq!(
        refs,
        [
            ("main".to_string(), RefKind::Head),
            ("origin/main".to_string(), RefKind::Remote),
            ("v1".to_string(), RefKind::Tag),
        ]
    );
    assert_eq!(labels_of(&entries, "bbbbbbbbbb")[0].kind, RefKind::Local);
    assert!(labels_of(&entries, "cccccccccc").is_empty());
}

#[test]
fn missing_parts_of_commits_have_defaults() {
    let mut r = raw("aaaaaaaaaa", None);
    r.author = None;
    r.email = None;
    r.seconds = i64::MAX;
    let c = commit_info(r, &vec![]);
    assert_eq!(c.message, "");
    assert_eq!(c.author, "Unknown");
    assert_eq!(c.author_email, "");
    assert_eq!(c.date, "");
}

#[test]
fn dates_are_written_out() {
    let mut r = raw("aaaaaaaaaa", None);
    r.seconds = 1_700_000_000;
    assert_eq!(commit_info(r, &vec![]).date, "2023-11-14T22:13:20+00:00");
}

#[test]
fn logs_are_cut() {
    let walked = vec![raw("aaaaaaaaaa", None), raw("bbbbbbbbbb", None), raw("cccccccccc", None)];
    let log = get_commit_log(walked, &vec![], 2);
    let ids: Vec<&str> = log.iter().map(|c| c.oid.as_str()).collect();
    assert_eq!(ids, ["aaaaaaaaaa", "bbbbbbbbbb"]);
    assert_eq!(get_commit_log(vec![raw("aaaaaaaaaa", None)], &vec![], 9).len(), 1);
}

/// The ids of the commits of a walk that are kept; each commit stands with
/// what the file holds in it and in its parents.
fn history(count: usize, walk: &[(&str, Option<&str>, &[Option<&str>])]) -> Vec<String> {
    let text = |b: &Option<&str>| b.map(|s| s.to_string());
    let mut h = get_file_history(count);
    for (id, blob, parents) in walk {
        if !h.over {
            h.visit(raw(id, None), text(blob), &parents.iter().map(text).collect(), &vec![]);
        }
    }
    h.commits.into_iter().map(|c| c.oid).collect()
}

#[test]
fn histories_hold_the_changes_of_a_file() {
    let blobs = [None, Some("1"), Some("1"), Some("2"), None, None, Some("2")];
    let ids: Vec<String> = (0..blobs.len()).map(|i| format!("{:010}", i)).collect();
    let walk: Vec<(&str, Option<&str>, &[Option<&str>])> = (0..blobs.len())
        .map(|i| (ids[i].as_str(), blobs[i], &blobs[i + 1..blobs.len().min(i + 2)]))
        .collect();
    let kept = ["0000000000", "0000000002", "0000000003", "0000000005", "0000000006"];
    assert_eq!(history(10, &walk), kept);
    assert_eq!(history(2, &walk), kept[..2]);
    assert!(history(0, &walk).is_empty());
    assert!(get_file_history(0).over && !get_file_history(1).over);
}

#[test]
fn histories_leave_out_commits_that_do_not_touch_the_file() {
    let walk: [(&str, Option<&str>, &[Option<&str>]); 5] = [
        ("c4c4c4c4", Some("2"), &[Some("2")]),
        ("c3c3c3c3", Some("2"), &[Some("1")]),
        ("c2c2c2c2", Some("1"), &[Some("1")]),
        ("c1c1c1c1", Some("1"), &[None]),
        ("c0c0c0c0", None, &[]),
    ];
    assert_eq!(history(50, &walk), ["c3c3c3c3", "c1c1c1c1"]);
}

#[test]
fn histories_follow_the_parents_of_each_commit() {
    let walk: [(&str, Option<&str>, &[Option<&str>]); 7] = [
        ("11111111", Some("2"), &[Some("2"), Some("1")]),
        ("22222222", Some("1"), &[Some("1")]),
        ("33333333", Some("2"), &[Some("1")]),
        ("44444444", Some("1"), &[Some("1")]),
        ("55555555", Some("3"), &[Some("1"), Some("2")]),
        ("66666666", None, &[Some("1"), None]),
        ("77777777", Some("1"), &[]),
    ];
    assert_eq!(history(50, &walk), ["33333333", "55555555", "77777777"]);
    assert!(touches_file(&None, &vec![own("1")]));
    assert!(!touches_file(&None, &vec![]));
}

#[test]
fn file_changes_are_staged_or_not() {
    let entry = |path: &str, flags: StatusFlags| StatusEntry { path: own(path), flags };
    let index = vec![
        entry("a", StatusFlags { index_new: true, index_modified: true, ..NONE }),
        entry("b", StatusFlags { index_modified: true, ..NONE }),
        entry("c", StatusFlags { index_deleted: true, ..NONE }),
        entry("d", StatusFlags { index_renamed: true, ..NONE }),
        entry("e", StatusFlags { conflicted: true, ..NONE }),
        entry("f", StatusFlags { wt_new: true, ..NONE }),
    ];
    let workdir = vec![
        entry("a", StatusFlags { wt_new: true, ..NONE }),
        entry("b", StatusFlags { wt_modified: true, ..NONE }),
        entry("c", StatusFlags { wt_deleted: true, ..NONE }),
        entry("d", StatusFlags { wt_renamed: true, ..NONE }),
        entry("e", StatusFlags { conflicted: true, ..NONE }),
        StatusEntry { path: None, flags: StatusFlags { wt_new: true, ..NONE } },
    ];
    let changes = get_file_changes(&index, &workdir);
    let shown: Vec<(&str, FileStatus, bool)> =
        changes.iter().map(|c| (c.path.as_str(), c.status, c.staged)).collect();
    assert_eq!(
        shown,
        [
            ("a", FileStatus::Added, true),
            ("b", FileStatus::Modified, true),
            ("c", FileStatus::Deleted, true),
            ("d", FileStatus::Renamed, true),
            ("e", FileStatus::Conflicted, true),
            ("a", FileStatus::Untracked, false),
            ("b", FileStatus::Modified, false),
            ("c", FileStatus::Deleted, false),
            ("d", FileStatus::Renamed, false),
            ("e", FileStatus::Conflicted, false),
            ("", FileStatus::Untracked, false),
        ]
    );
}

#[test]
fn patches_are_put_together() {
    let line = |origin: char, content: &[u8]| PatchLine { origin, content: content.to_vec() };
    let lines = vec![
        line('F', b"diff --git a b\n"),
        line('H', b"@@ -1 +1 @@\n"),
        line('-', b"old\n"),
        line('+', "neu ä\n".as_bytes()),
        line('+', &[0xff]),
        line(' ', b"same\n"),
    ];
    let want = "diff --git a b\n@@ -1 +1 @@\n-old\n+neu ä\n+ same\n";
    assert_eq!(get_workdir_diff(&lines), want);
    assert_eq!(get_file_diff(&lines), want);
    assert_eq!(get_commit_diff(&lines), want);
    assert_eq!(get_workdir_diff(&vec![]), "");
    assert_eq!(get_file_diff(&vec![]), "(no diff available)");
    assert_eq!(get_commit_diff(&vec![]), "(empty commit)");
}

#[test]
fn commit_files_are_named() {
    let delta = |kind: DeltaKind, new: Option<&str>, old: Option<&str>| CommitDelta {
        kind,
        new_path: new.map(|s| s.to_string()),
        old_path: old.map(|s| s.to_string()),
    };
    let files = get_commit_files(&vec![
        delta(DeltaKind::Added, Some("a"), Some("x")),
        delta(DeltaKind::Deleted, None, Some("b")),
        delta(DeltaKind::Modified, None, None),
        delta(DeltaKind::Renamed, Some("d"), None),
        delta(DeltaKind::Copied, Some("e"), None),
        delta(DeltaKind::Other, Some("f"), None),
    ]);
    let shown: Vec<(&str, &str)> =
        files.iter().map(|f| (f.path.as_str(), f.status.as_str())).collect();
    assert_eq!(
        shown,
        [
            ("a", "added"),
            ("b", "deleted"),
            ("", "modified"),
            ("d", "renamed"),
            ("e", "copied"),
            ("f", "modified"),
        ]
    );
}

#[test]
fn staging_adds_and_removes() {
    let files = vec!["a".to_string(), "b".to_string()];
    let edits = stage_files(&files, &vec![true, false]);
    assert!(matches!(&edits[0], IndexEdit::Add(p) if p == "a"));
    assert!(matches!(&edits[1], IndexEdit::Remove(p) if p == "b"));
    assert_eq!(edits.len(), 2);
    assert_eq!(file_in_repo("/r", "a"), "/r/a");
    assert_eq!(unstaging(true), Unstaging::ResetToHead);
    assert_eq!(unstaging(false), Unstaging::Remove);
}

#[test]
fn branches_are_in_order() {
    let found = vec![
        branch(Some("origin/a"), true, None),
        branch(Some("zeta"), false, None),
        branch(None, false, None),
        branch(Some("main"), false, None),
        branch(Some("alpha"), false, None),
    ];
    let branches = get_branches(&found, Some("main"));
    let names: Vec<&str> = branches.iter().map(|b| b.name.as_str()).collect();
    assert_eq!(names, ["main", "alpha", "zeta", "origin/a"]);
    assert!(branches[0].is_head && !branches[1].is_head);
    assert!(branches[3].is_remote);
}

#[test]
fn checkouts_move_head() {
    assert!(matches!(checkout_target(Some(own("refs/heads/x"))), Ok(HeadTarget::Reference(n))
        if n == "refs/heads/x"));
    assert!(matches!(checkout_target(None), Ok(HeadTarget::Commit)));
    assert_eq!(checkout_target(Some(None)).err().unwrap().text(), "Invalid reference name");
}

#[test]
fn merges_are_planned() {
    assert!(matches!(merge_branch("b", true, true), MergePlan::Nothing(s)
        if s == "Already up to date"));
    assert!(matches!(merge_branch("b", false, true), MergePlan::FastForward { note, told }
        if note == "Fast-forward merge b" && told == "Fast-forward merge"));
    assert!(matches!(merge_branch("b", false, false), MergePlan::Commit { message }
        if message == "Merge branch 'b'"));
    assert_eq!(merge_result(false).ok().unwrap(), "Merge commit created");
    assert_eq!(
        merge_result(true).err().unwrap().text(),
        "Merge has conflicts — resolve them manually"
    );
}

/// Runs a squash from commit "c0" on, where each commit has the parents that
/// `history` gives; gives how it ends, and the requests after the walk.
fn squashed(count: usize, history: fn(&str) -> Vec<&'static str>) -> (Result<String, String>, Vec<String>) {
    let mut seen = vec![];
    let (mut task, mut step) = squash_commits(count, "all in one");
    loop {
        let request = match step {
            SquashStep::Done(id) => return (Ok(id), seen),
            SquashStep::Failed(e) => return (Err(e.text()), seen),
            SquashStep::Ask(request) => request,
        };
        let reply = match request {
            SquashRequest::ReadHead => SquashReply::Head("c0".to_string()),
            SquashRequest::ReadParents(id) => {
                SquashReply::Parents(history(&id).into_iter().map(|p| p.to_string()).collect())
            }
            SquashRequest::Commit { tree_of, parents, message } => {
                seen.push(format!("commit {} {} {}", tree_of, parents.join("+"), message));
                SquashReply::Made("new".to_string())
            }
            SquashRequest::MoveHead(id) => {
                seen.push(format!("move {}", id));
                SquashReply::Done
            }
        };
        assert!(task.accepts(&reply));
        (task, step) = task.advance(reply);
    }
}

fn line_with_a_merge(id: &str) -> Vec<&'static str> {
    match id {
        "c0" => vec!["c1"],
        "c1" => vec!["c2"],
        "c2" => vec!["c3", "d3"],
        _ => vec![],
    }
}

#[test]
fn squashes_make_one_commit_of_several() {
    let (end, seen) = squashed(2, line_with_a_merge);
    assert_eq!(end.unwrap(), "new");
    assert_eq!(seen, ["commit c0 c2 all in one", "move new"]);
    let (end, seen) = squashed(3, line_with_a_merge);
    assert_eq!(end.unwrap(), "new");
    assert_eq!(seen, ["commit c0 c3+d3 all in one", "move new"]);
    let (end, seen) = squashed(2, |id| if id == "c0" { vec!["c1"] } else { vec![] });
    assert_eq!(end.unwrap(), "new");
    assert_eq!(seen, ["commit c0  all in one", "move new"]);
}

#[test]
fn squashes_need_a_straight_line() {
    for n in [0, 1] {
        let (end, seen) = squashed(n, line_with_a_merge);
        assert_eq!(end.unwrap_err(), "Need at least 2 commits to squash");
        assert!(seen.is_empty());
    }
    let (end, seen) = squashed(4, line_with_a_merge);
    assert_eq!(end.unwrap_err(), "Cannot squash across merge commits");
    assert!(seen.is_empty());
    let (end, seen) = squashed(2, |_| vec![]);
    assert_eq!(end.unwrap_err(), "Not enough commits to squash");
    assert!(seen.is_empty());
    assert!(squash_step(1).is_ok());
    assert_eq!(squash_step(0).err().unwrap().text(), "Not enough commits to squash");
    assert_eq!(squash_step(2).err().unwrap().text(), "Cannot squash across merge commits");
}

#[test]
fn a_squash_ends_where_the_work_fails() {
    let (task, _) = squash_commits(2, "m");
    assert!(!task.accepts(&SquashReply::Done));
    let (task, step) = task.advance(SquashReply::Failed(AppError::msg("no repo")));
    assert!(matches!(step, SquashStep::Failed(e) if e.text() == "no repo"));
    assert!(!task.accepts(&SquashReply::Failed(AppError::msg("again"))));
}

#[test]
fn small_things_have_defaults() {
    assert_eq!(stash_message(""), "WIP");
    assert_eq!(stash_message("x"), "x");
    let r = remote_info("origin".to_string(), None);
    assert_eq!((r.name.as_str(), r.url.as_str()), ("origin", ""));
    let p = get_git_profile(own("Ann"), None);
    assert_eq!((p.name.as_str(), p.email.as_str()), ("Ann", ""));
}

#[test]
fn pull_requests_have_pages() {
    let page = |url: &str, b: Option<&str>| get_pr_url(url, b).map_err(|e| e.text());
    assert_eq!(
        page("git@github.com:me/r.git", Some("topic")),
        Ok("https://github.com/me/r/compare/topic?expand=1".to_string())
    );
    assert_eq!(
        page("https://gitlab.example.com/me/r.git", None),
        Ok("https://gitlab.example.com/me/r/-/merge_requests/new?merge_request%5Bsource_branch%5D=main"
            .to_string())
    );
    assert_eq!(
        page("https://bitbucket.org/me/r", Some("b")),
        Ok("https://bitbucket.org/me/r/pull-requests/new?source=b".to_string())
    );
    assert_eq!(
        page("https://example.com/me/r", Some("b")),
        Err("Unsupported git host in URL: https://example.com/me/r".to_string())
    );
    assert_eq!(origin_url(Some(own("u"))).ok().unwrap(), "u");
    assert_eq!(origin_url(Some(None)).err().unwrap().text(), "Origin remote has no URL");
    assert_eq!(origin_url(None).err().unwrap().text(), "No 'origin' remote found");
}

#[test]
fn readmes_are_found_in_order() {
    assert_eq!(readme_names().len(), 7);
    let found = get_readme(&vec![false, false, true, false, true, false, false]);
    assert_eq!(found.as_deref(), Some("Readme.md"));
    assert_eq!(get_readme(&vec![false; 7]), None);
    assert_eq!(readme_error("README", "denied").text(), "Failed to read README: denied");
}
