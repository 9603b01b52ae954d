use gitatlas::models::{
    BranchInfo, CommitFileChange, CommitInfo, FileChange, FileStatus, RefKind, RefLabel, RemoteInfo,
    RepoHealth, RepoInfo, StashEntry,
};
use gitatlas::output::{
    health_counts, print_branches, print_commit_files, print_commits, print_diff,
    print_file_changes, print_remotes, print_repo_table, print_stashes, Printed,
};
use gitatlas::style::{Color, Span, Style};

fn repo(health: RepoHealth, ahead: u32) -> RepoInfo {
    RepoInfo {
        path: "/p".to_string(),
        name: "n".to_string(),
        branch: "b".to_string(),
        ahead,
        behind: 0,
        dirty_files: 2,
        stash_count: 3,
        health,
        last_checked: "now".to_string(),
        remote_url: None,
    }
}

fn text(line: &[Span]) -> String {
    line.iter().map(|s| s.text.as_str()).collect()
}

fn texts(lines: &[Vec<Span>]) -> Vec<String> {
    lines.iter().map(|l| text(l)).collect()
}

#[test]
fn tables_of_repos_are_tinted() {
    let printed = print_repo_table(&vec![repo(RepoHealth::Dirty, 1), repo(RepoHealth::Diverged, 0)]);
    assert_eq!(printed.len(), 3);
    match &printed[0] {
        Printed::Table { header, rows } => {
            assert_eq!(text(header), "NAMEBRANCHAHEADBEHINDDIRTYSTASHHEALTHPATH");
            assert!(header.iter().all(|s| s.style.bold));
            let cells: Vec<&str> = rows[0].iter().map(|s| s.text.as_str()).collect();
            assert_eq!(cells, ["n", "b", "1", "0", "2", "3", "dirty", "/p"]);
            assert_eq!(rows[0][2].style.fg, Some(Color::Yellow));
            assert_eq!(rows[0][3].style.fg, None);
            assert_eq!(rows[0][6].style.fg, Some(Color::Yellow));
            assert!(rows[0][6].style.bold);
            assert_eq!(rows[1][6].style.fg, Some(Color::Red));
        }
        _ => panic!(),
    }
    assert!(matches!(&printed[1], Printed::Line(l) if l.is_empty()));
    match &printed[2] {
        Printed::Line(l) => {
            assert_eq!(text(l), "2 total — 0 clean, 1 dirty, 1 diverged, 0 error");
            assert_eq!(l[1].style.fg, Some(Color::Green));
        }
        _ => panic!(),
    }
}

#[test]
fn no_repos_are_a_remark() {
    let printed = print_repo_table(&vec![]);
    assert!(matches!(&printed[..], [Printed::Line(l)] if text(l) == "(no repositories)"));
}

#[test]
fn counts_of_healths_add_up() {
    let repos = vec![
        repo(RepoHealth::Clean, 0),
        repo(RepoHealth::Error, 0),
        repo(RepoHealth::Clean, 0),
        repo(RepoHealth::Dirty, 0),
    ];
    assert_eq!(health_counts(&repos), (2, 1, 0, 1));
}

#[test]
fn commits_are_one_to_a_line() {
    let label = |name: &str, kind: RefKind| RefLabel { name: name.to_string(), kind };
    let c = CommitInfo {
        oid: "0123456789".to_string(),
        short_oid: "0123456".to_string(),
        message: "first\nsecond".to_string(),
        author: "Ann".to_string(),
        author_email: "a@x".to_string(),
        date: "d".to_string(),
        parents: vec![],
        refs: vec![
            label("main", RefKind::Head),
            label("dev", RefKind::Local),
            label("origin/main", RefKind::Remote),
            label("v1", RefKind::Tag),
        ],
    };
    let lines = print_commits(&vec![c]);
    assert_eq!(
        texts(&lines),
        ["0123456 (HEAD -> main, dev, origin/main, tag: v1) <Ann> first"]
    );
    assert_eq!(lines[0][2].style, Style::plain().fg(Color::Cyan).bold());
    assert_eq!(texts(&print_commits(&vec![])), ["(no commits)"]);
}

#[test]
fn changes_are_grouped() {
    let change = |path: &str, staged: bool| FileChange {
        path: path.to_string(),
        status: FileStatus::Modified,
        staged,
    };
    let both = vec![change("a", false), change("b", true), change("c", false)];
    assert_eq!(
        texts(&print_file_changes(&both)),
        ["Staged:", "  M b", "", "Unstaged:", "  M a", "  M c"]
    );
    assert_eq!(texts(&print_file_changes(&vec![change("a", false)])), ["Unstaged:", "  M a"]);
    assert_eq!(texts(&print_file_changes(&vec![change("a", true)])), ["Staged:", "  M a"]);
    assert_eq!(texts(&print_file_changes(&vec![])), ["(clean working tree)"]);
}

#[test]
fn diffs_are_tinted() {
    let diff = "diff --git a b\n--- a\n+++ b\n@@ -1 +1 @@\n-x\n+y\n z\n";
    let lines = print_diff(diff);
    let styles: Vec<Style> = lines.iter().map(|l| l[0].style).collect();
    assert_eq!(
        styles,
        [
            Style::plain().bold().bright(),
            Style::plain().bold(),
            Style::plain().bold(),
            Style::plain().fg(Color::Cyan),
            Style::plain().fg(Color::Red),
            Style::plain().fg(Color::Green),
            Style::plain(),
        ]
    );
    assert_eq!(texts(&lines).join("\n") + "\n", diff);
}

#[test]
fn branches_have_markers() {
    let branch = |name: &str, is_head: bool, is_remote: bool, upstream: Option<&str>| BranchInfo {
        name: name.to_string(),
        is_head,
        is_remote,
        upstream: upstream.map(|u| u.to_string()),
    };
    let lines = print_branches(&vec![
        branch("main", true, false, Some("origin/main")),
        branch("origin/main", false, true, None),
    ]);
    assert_eq!(texts(&lines), ["  * main → origin/main", "    origin/main"]);
    assert_eq!(lines[1][1].style.fg, Some(Color::Red));
    assert_eq!(texts(&print_branches(&vec![])), ["(no branches)"]);
}

#[test]
fn stashes_and_remotes_are_listed() {
    let stash = StashEntry { index: 1, message: "WIP".to_string() };
    assert_eq!(texts(&print_stashes(&vec![stash])), ["  stash@{1}: WIP"]);
    assert_eq!(texts(&print_stashes(&vec![])), ["(no stashes)"]);
    let remote = RemoteInfo { name: "origin".to_string(), url: "u".to_string() };
    match &print_remotes(&vec![remote])[..] {
        [Printed::Table { header, rows }] => {
            assert_eq!(text(header), "NAMEURL");
            assert_eq!(text(&rows[0]), "originu");
        }
        _ => panic!(),
    }
    assert!(matches!(&print_remotes(&vec![])[..], [Printed::Line(l)] if text(l) == "(no remotes)"));
}

#[test]
fn commit_files_have_letters() {
    let file = |status: &str| CommitFileChange { path: "f".to_string(), status: status.to_string() };
    let files = ["added", "deleted", "modified", "renamed", "copied", "odd"].map(file);
    let lines = print_commit_files(&files.into_iter().collect());
    assert_eq!(texts(&lines), ["  A f", "  D f", "  M f", "  R f", "  C f", "  ? f"]);
    assert_eq!(texts(&print_commit_files(&vec![])), ["(no file changes)"]);
}
