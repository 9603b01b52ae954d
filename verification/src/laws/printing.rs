//! What is printed: each thing where a reader looks for it.
use vstd::prelude::*;
use vstd::string::*;

use crate::models::{BranchInfo, CommitFileChange, CommitInfo, FileChange, FileStatus, RefKind,
    RefLabel, RemoteInfo, RepoHealth, RepoInfo, StashEntry};
use crate::output::{health_cell, health_counts, print_branches, print_commit_files, print_commits,
    print_diff, print_file_changes, print_remotes, print_repo_status, print_repo_table,
    print_stashes, printed_view, refs_listed, side_lines, with_health, Printed, PrintedView};
use crate::report::{data_text, notice_text, op_name, Data, Notice, Op};
use crate::style::{line_view, lines_view, Color, Span, SpanView};
use crate::text::{decimal_of, first_line_of, joined, lines_of, texts};

verus! {

/// The word for a health.
pub open spec fn word_of(h: RepoHealth) -> Seq<char> {
    match h {
        RepoHealth::Clean => "clean"@,
        RepoHealth::Dirty => "dirty"@,
        RepoHealth::Diverged => "diverged"@,
        RepoHealth::Error => "error"@,
    }
}

/// A line of output that holds one text.
pub open spec fn is_line(p: PrintedView, text: Seq<char>) -> bool {
    &&& p matches PrintedView::Line(l)
    &&& l.len() == 1
    &&& l[0].text == text
}

/// Lines, spans and tables are what they hold.
pub proof fn printed_things_are_what_they_hold(v: Seq<Printed>, l: Seq<Span>, ls: Seq<Vec<Span>>, i: int)
    ensures
        printed_view(v).len() == v.len(),
        line_view(l).len() == l.len(),
        lines_view(ls).len() == ls.len(),
        0 <= i < l.len() ==> line_view(l)[i].text == l[i].text@ && line_view(l)[i].style
            == l[i].style,
        0 <= i < ls.len() ==> lines_view(ls)[i] == line_view(ls[i]@),
        0 <= i < v.len() ==> match v[i] {
            Printed::Line(s) => printed_view(v)[i] == PrintedView::Line(line_view(s@)),
            Printed::Table { header, rows } => printed_view(v)[i] == (PrintedView::Table {
                header: line_view(header@),
                rows: lines_view(rows@),
            }),
            Printed::Raw(s) => printed_view(v)[i] == PrintedView::Raw(s@),
        },
{
}

/// The table of repositories has one row for each, in order, and what stands
/// below a heading is what the heading says.
pub proof fn the_table_shows_each_repository(repos: Vec<RepoInfo>, r: Vec<Printed>, i: int)
    requires
        call_ensures(print_repo_table, (&repos,), r),
        0 <= i < repos@.len(),
    ensures
        ({
            let p = printed_view(r@);
            let repo = repos@[i];
            &&& p.len() == 3
            &&& p[0] matches PrintedView::Table { header, rows }
            &&& header.len() == 8 && rows.len() == repos@.len() && rows[i].len() == 8
            &&& header[0].text == "NAME"@ && rows[i][0].text == repo.name@
            &&& header[1].text == "BRANCH"@ && rows[i][1].text == repo.branch@
            &&& header[2].text == "AHEAD"@ && rows[i][2].text == decimal_of(repo.ahead as nat)
            &&& header[3].text == "BEHIND"@ && rows[i][3].text == decimal_of(repo.behind as nat)
            &&& header[4].text == "DIRTY"@ && rows[i][4].text == decimal_of(
                repo.dirty_files as nat,
            )
            &&& header[5].text == "STASH"@ && rows[i][5].text == decimal_of(
                repo.stash_count as nat,
            )
            &&& header[6].text == "HEALTH"@ && rows[i][6].text == word_of(repo.health)
            &&& header[7].text == "PATH"@ && rows[i][7].text == repo.path@
        }),
{
}

/// Counts that are not zero stand out in the table: what waits here in yellow,
/// what waits there in red.
pub proof fn counts_stand_out(repos: Vec<RepoInfo>, r: Vec<Printed>, i: int)
    requires
        call_ensures(print_repo_table, (&repos,), r),
        0 <= i < repos@.len(),
    ensures
        ({
            let repo = repos@[i];
            &&& printed_view(r@)[0] matches PrintedView::Table { header, rows }
            &&& rows[i][2].style.fg == if repo.ahead > 0 {
                Some(Color::Yellow)
            } else {
                None
            }
            &&& rows[i][3].style.fg == if repo.behind > 0 {
                Some(Color::Red)
            } else {
                None
            }
            &&& rows[i][4].style.fg == if repo.dirty_files > 0 {
                Some(Color::Yellow)
            } else {
                None
            }
            &&& rows[i][6].style.fg == match repo.health {
                RepoHealth::Clean => Some(Color::Green),
                RepoHealth::Dirty => Some(Color::Yellow),
                _ => Some(Color::Red),
            }
        }),
{
}

/// Below the table stands how many repositories there are, and how many of
/// them have each health. Without any, that is said.
pub proof fn the_table_is_summed_up(repos: Vec<RepoInfo>, r: Vec<Printed>, c: (usize, usize, usize, usize))
    requires
        call_ensures(print_repo_table, (&repos,), r),
        call_ensures(health_counts, (&repos,), c),
    ensures
        ({
            let p = printed_view(r@);
            &&& repos@.len() == 0 ==> p.len() == 1 && is_line(p[0], "(no repositories)"@)
            &&& repos@.len() > 0 ==> {
                &&& p[1] matches PrintedView::Line(gap)
                &&& gap.len() == 0
                &&& p[2] matches PrintedView::Line(l)
                &&& l.len() == 9
                &&& l[0].text == decimal_of(repos@.len()) + " total — "@
                &&& l[1].text == decimal_of(c.0 as nat) && l[2].text == " clean, "@
                &&& l[3].text == decimal_of(c.1 as nat) && l[4].text == " dirty, "@
                &&& l[5].text == decimal_of(c.2 as nat) && l[6].text == " diverged, "@
                &&& l[7].text == decimal_of(c.3 as nat) && l[8].text == " error"@
            }
        }),
{
}

/// One more repository counts for its own health and for no other.
pub proof fn healths_are_counted(repos: Seq<RepoInfo>, more: RepoInfo, h: RepoHealth)
    ensures
        with_health(seq![], h) == 0,
        with_health(repos.push(more), h) == with_health(repos, h) + if more.health == h {
            1nat
        } else {
            0
        },
{
    assert(repos.push(more).drop_last() =~= repos);
}

/// The state of a repository is printed one thing to a line, under its name.
pub proof fn a_state_is_printed(repo: RepoInfo, r: Vec<Vec<Span>>)
    requires
        call_ensures(print_repo_status, (&repo,), r),
    ensures
        ({
            let p = lines_view(r@);
            &&& p[0].len() == 1 && p[0][0].text == repo.name@
            &&& p[1].len() == 1 && p[1][0].text == "  path:        "@ + repo.path@
            &&& p[2].len() == 1 && p[2][0].text == "  branch:      "@ + repo.branch@
            &&& p[3].len() == 1 && p[3][0].text == "  ahead:       "@ + decimal_of(
                repo.ahead as nat,
            ) + "   behind: "@ + decimal_of(repo.behind as nat)
            &&& p[4].len() == 1 && p[4][0].text == "  dirty files: "@ + decimal_of(
                repo.dirty_files as nat,
            )
            &&& p[5].len() == 1 && p[5][0].text == "  stashes:     "@ + decimal_of(
                repo.stash_count as nat,
            )
            &&& p[6].len() == 2 && p[6][0].text == "  health:      "@ && p[6][1].text == word_of(
                repo.health,
            )
            &&& repo.remote_url matches Some(u) ==> {
                &&& p.len() == 9
                &&& p[7].len() == 1 && p[7][0].text == "  origin:      "@ + u@
                &&& p[8].len() == 1 && p[8][0].text == "  checked:     "@ + repo.last_checked@
            }
            &&& repo.remote_url is None ==> {
                &&& p.len() == 8
                &&& p[7].len() == 1 && p[7][0].text == "  checked:     "@ + repo.last_checked@
            }
        }),
{
}

/// Each commit is a line: its short id, its labels in brackets where it has
/// any, its author and the first line of its message.
pub proof fn commits_are_printed(commits: Vec<CommitInfo>, r: Vec<Vec<Span>>, i: int)
    requires
        call_ensures(print_commits, (&commits,), r),
    ensures
        ({
            let p = lines_view(r@);
            &&& commits@.len() == 0 ==> p.len() == 1 && p[0].len() == 1 && p[0][0].text
                == "(no commits)"@
            &&& commits@.len() > 0 ==> p.len() == commits@.len()
            &&& 0 <= i < commits@.len() ==> {
                let c = commits@[i];
                let n = p[i].len();
                &&& n >= 4
                &&& p[i][0].text == c.short_oid@
                &&& p[i][n - 3].text == " "@
                &&& p[i][n - 2].text == "<"@ + c.author@ + ">"@
                &&& p[i][n - 1].text == " "@ + first_line_of(c.message@)
                &&& c.refs@.len() == 0 ==> n == 4
                &&& c.refs@.len() > 0 ==> {
                    &&& p[i][1].text == " ("@
                    &&& p[i].subrange(2, n - 4) == refs_listed(c.refs@)
                    &&& p[i][n - 4].text == ")"@
                }
            }
        }),
{
    if 0 <= i < commits@.len() {
        let c = commits@[i];
        let l = lines_view(r@)[i];
        assert(l == crate::output::commit_line(c));
        if c.refs@.len() > 0 {
            assert(l.subrange(2, l.len() - 4) =~= refs_listed(c.refs@));
        }
    }
}

/// Labels are listed in order with commas between them, each as its kind:
/// where HEAD is, a tag as such, and branches by name.
pub proof fn labels_are_listed(refs: Seq<RefLabel>, l: RefLabel)
    ensures
        refs_listed(seq![l]).len() == 1,
        refs_listed(seq![l])[0].text == match l.kind {
            RefKind::Head => "HEAD -> "@ + l.name@,
            RefKind::Tag => "tag: "@ + l.name@,
            _ => l.name@,
        },
        refs_listed(seq![l])[0].style.fg == Some(
            match l.kind {
                RefKind::Head => Color::Cyan,
                RefKind::Local => Color::Green,
                RefKind::Remote => Color::Red,
                RefKind::Tag => Color::Yellow,
            },
        ),
        refs.len() > 0 ==> {
            let all = refs_listed(refs.push(l));
            &&& all.len() == refs_listed(refs).len() + 2
            &&& all.take(refs_listed(refs).len() as int) == refs_listed(refs)
            &&& all[all.len() - 2].text == ", "@
            &&& all.last() == refs_listed(seq![l])[0]
        },
{
    if refs.len() > 0 {
        assert(refs.push(l).drop_last() =~= refs);
        assert(refs_listed(refs.push(l)).take(refs_listed(refs).len() as int) =~= refs_listed(
            refs,
        ));
    }
}

/// The letter of a status.
pub open spec fn letter_of(s: FileStatus) -> Seq<char> {
    match s {
        FileStatus::Added => "A"@,
        FileStatus::Modified => "M"@,
        FileStatus::Deleted => "D"@,
        FileStatus::Renamed => "R"@,
        FileStatus::Untracked => "?"@,
        FileStatus::Conflicted => "U"@,
    }
}

/// A change is a line on its side, and on no other: the letter of its status
/// and its path.
pub proof fn changes_are_listed_on_their_side(changes: Seq<FileChange>, c: FileChange)
    ensures
        side_lines(changes.push(c), !c.staged) == side_lines(changes, !c.staged),
        ({
            let v = side_lines(changes.push(c), c.staged);
            &&& v.len() == side_lines(changes, c.staged).len() + 1
            &&& v.drop_last() == side_lines(changes, c.staged)
            &&& v.last().len() == 3
            &&& v.last()[0].text == "  "@
            &&& v.last()[1].text == letter_of(c.status)
            &&& v.last()[2].text == " "@ + c.path@
        }),
        side_lines(seq![], c.staged).len() == 0,
{
    assert(changes.push(c).drop_last() =~= changes);
    assert(side_lines(changes.push(c), c.staged).drop_last() =~= side_lines(changes, c.staged));
}

/// The staged changes stand under their title, then the others under theirs,
/// with an empty line between where there are both.
pub proof fn changes_are_printed(changes: Vec<FileChange>, r: Vec<Vec<Span>>)
    requires
        call_ensures(print_file_changes, (&changes,), r),
    ensures
        ({
            let p = lines_view(r@);
            let a = side_lines(changes@, true);
            let b = side_lines(changes@, false);
            let n = a.len() as int;
            &&& changes@.len() == 0 ==> p.len() == 1 && p[0].len() == 1 && p[0][0].text
                == "(clean working tree)"@
            &&& a.len() > 0 ==> {
                &&& p[0].len() == 1 && p[0][0].text == "Staged:"@
                &&& p.subrange(1, 1 + n) == a
            }
            &&& a.len() > 0 && b.len() == 0 ==> p.len() == 1 + a.len()
            &&& a.len() == 0 && b.len() > 0 ==> {
                &&& p[0].len() == 1 && p[0][0].text == "Unstaged:"@
                &&& p.skip(1) == b
            }
            &&& a.len() > 0 && b.len() > 0 ==> {
                &&& p[n + 1].len() == 0
                &&& p[n + 2].len() == 1 && p[n + 2][0].text == "Unstaged:"@
                &&& p.skip(n + 3) == b
            }
        }),
{
    let p = lines_view(r@);
    let a = side_lines(changes@, true);
    let b = side_lines(changes@, false);
    let n = a.len() as int;
    if a.len() > 0 {
        assert(p.subrange(1, 1 + n) =~= a);
    }
    if a.len() == 0 && b.len() > 0 {
        assert(p.skip(1) =~= b);
    }
    if a.len() > 0 && b.len() > 0 {
        assert(p.skip(n + 3) =~= b);
    }
}

/// Every line of a diff is printed as it is; added lines are green, removed
/// ones red.
pub proof fn diffs_are_printed(diff: &str, r: Vec<Vec<Span>>, i: int)
    requires
        call_ensures(print_diff, (diff,), r),
    ensures
        ({
            let p = lines_view(r@);
            let v = lines_of(diff@);
            &&& p.len() == v.len()
            &&& 0 <= i < v.len() ==> {
                let l = v[i];
                let title = "+++"@.is_prefix_of(l) || "---"@.is_prefix_of(l);
                &&& p[i].len() == 1 && p[i][0].text == l
                &&& title ==> p[i][0].style.bold && p[i][0].style.fg is None
                &&& !title && "+"@.is_prefix_of(l) ==> p[i][0].style.fg == Some(Color::Green)
                &&& !title && !("+"@.is_prefix_of(l)) && "-"@.is_prefix_of(l) ==> p[i][0].style.fg
                    == Some(Color::Red)
                &&& !title && !("+"@.is_prefix_of(l)) && !("-"@.is_prefix_of(l)) ==> {
                    &&& "@@"@.is_prefix_of(l) ==> p[i][0].style.fg == Some(Color::Cyan)
                    &&& !("@@"@.is_prefix_of(l)) && "diff --git"@.is_prefix_of(l)
                        ==> p[i][0].style.bold && p[i][0].style.bright
                    &&& !("@@"@.is_prefix_of(l)) && !("diff --git"@.is_prefix_of(l))
                        ==> !p[i][0].style.bold && p[i][0].style.fg is None
                }
            }
        }),
{
}

/// Each file of a commit is a line: the letter of what happened to it, and its
/// path.
pub proof fn files_are_printed(files: Vec<CommitFileChange>, r: Vec<Vec<Span>>, i: int)
    requires
        call_ensures(print_commit_files, (&files,), r),
    ensures
        ({
            let p = lines_view(r@);
            &&& files@.len() == 0 ==> p.len() == 1 && p[0].len() == 1 && p[0][0].text
                == "(no file changes)"@
            &&& files@.len() > 0 ==> p.len() == files@.len()
            &&& 0 <= i < files@.len() ==> {
                let s = files@[i].status@;
                &&& p[i].len() == 3
                &&& p[i][0].text == "  "@
                &&& s == "added"@ ==> p[i][1].text == "A"@
                &&& s == "deleted"@ ==> p[i][1].text == "D"@
                &&& s == "modified"@ ==> p[i][1].text == "M"@
                &&& s == "renamed"@ ==> p[i][1].text == "R"@
                &&& s == "copied"@ ==> p[i][1].text == "C"@
                &&& p[i][2].text == " "@ + files@[i].path@
            }
        }),
{
    reveal_strlit("added");
    reveal_strlit("deleted");
    reveal_strlit("modified");
    reveal_strlit("renamed");
    reveal_strlit("copied");
    assert("added"@[0] != "deleted"@[0]);
    assert("added"@[0] != "modified"@[0]);
    assert("added"@[0] != "renamed"@[0]);
    assert("added"@[0] != "copied"@[0]);
    assert("deleted"@[0] != "modified"@[0]);
    assert("deleted"@[0] != "renamed"@[0]);
    assert("deleted"@[0] != "copied"@[0]);
    assert("modified"@[0] != "renamed"@[0]);
    assert("modified"@[0] != "copied"@[0]);
    assert("renamed"@[0] != "copied"@[0]);
}

/// Each branch is a line: a star where HEAD is, its name, and its upstream
/// where it has one.
pub proof fn branches_are_printed(branches: Vec<BranchInfo>, r: Vec<Vec<Span>>, i: int)
    requires
        call_ensures(print_branches, (&branches,), r),
    ensures
        ({
            let p = lines_view(r@);
            &&& branches@.len() == 0 ==> p.len() == 1 && p[0].len() == 1 && p[0][0].text
                == "(no branches)"@
            &&& branches@.len() > 0 ==> p.len() == branches@.len()
            &&& 0 <= i < branches@.len() ==> {
                let b = branches@[i];
                &&& b.is_head ==> p[i][0].text == "  * "@
                &&& !b.is_head ==> p[i][0].text == "    "@
                &&& p[i][1].text == b.name@
                &&& p[i][1].style.bold == b.is_head
                &&& p[i][1].style.fg == if b.is_head {
                    Some(Color::Green)
                } else if b.is_remote {
                    Some(Color::Red)
                } else {
                    None
                }
                &&& b.upstream matches Some(u) ==> p[i].len() == 3 && p[i][2].text == " → "@ + u@
                &&& b.upstream is None ==> p[i].len() == 2
            }
        }),
{
}

/// Each stash is a line: its number and its message.
pub proof fn stashes_are_printed(stashes: Vec<StashEntry>, r: Vec<Vec<Span>>, i: int)
    requires
        call_ensures(print_stashes, (&stashes,), r),
    ensures
        ({
            let p = lines_view(r@);
            &&& stashes@.len() == 0 ==> p.len() == 1 && p[0].len() == 1 && p[0][0].text
                == "(no stashes)"@
            &&& stashes@.len() > 0 ==> p.len() == stashes@.len()
            &&& 0 <= i < stashes@.len() ==> p[i].len() == 1 && p[i][0].text == "  stash@{"@
                + decimal_of(stashes@[i].index as nat) + "}: "@ + stashes@[i].message@
        }),
{
}

/// Each remote is a row of a table: its name and its address.
pub proof fn remotes_are_printed(remotes: Vec<RemoteInfo>, r: Vec<Printed>, i: int)
    requires
        call_ensures(print_remotes, (&remotes,), r),
    ensures
        ({
            let p = printed_view(r@);
            &&& p.len() == 1
            &&& remotes@.len() == 0 ==> is_line(p[0], "(no remotes)"@)
            &&& 0 <= i < remotes@.len() ==> {
                &&& p[0] matches PrintedView::Table { header, rows }
                &&& header.len() == 2 && rows.len() == remotes@.len() && rows[i].len() == 2
                &&& header[0].text == "NAME"@ && rows[i][0].text == remotes@[i].name@
                &&& header[1].text == "URL"@ && rows[i][1].text == remotes@[i].url@
            }
        }),
{
}

// ── Data as text ─────────────────────────

/// Lists and states are printed as such.
pub proof fn lists_are_printed_as_such(
    d: Data,
    r: Vec<Printed>,
    repos: Vec<RepoInfo>,
    table: Vec<Printed>,
    remotes: Vec<RemoteInfo>,
    remote_table: Vec<Printed>,
)
    requires
        call_ensures(data_text, (&d,), r),
        call_ensures(print_repo_table, (&repos,), table),
        call_ensures(print_remotes, (&remotes,), remote_table),
    ensures
        d == Data::Repos(repos) ==> printed_view(r@) == printed_view(table@),
        d == Data::Remotes(remotes) ==> printed_view(r@) == printed_view(remote_table@),
{
}

/// The lines of what is printed.
pub open spec fn prints(r: Vec<Printed>, lines: Seq<Seq<SpanView>>) -> bool {
    &&& printed_view(r@).len() == lines.len()
    &&& forall|i: int|
        0 <= i < lines.len() ==> #[trigger] printed_view(r@)[i] == PrintedView::Line(lines[i])
}

/// A state, commits, changes, branches and stashes are printed by lines.
pub proof fn lines_are_printed_as_such(
    d: Data,
    r: Vec<Printed>,
    repo: RepoInfo,
    status: Vec<Vec<Span>>,
    commits: Vec<CommitInfo>,
    log: Vec<Vec<Span>>,
    changes: Vec<FileChange>,
    listed: Vec<Vec<Span>>,
)
    requires
        call_ensures(data_text, (&d,), r),
        call_ensures(print_repo_status, (&repo,), status),
        call_ensures(print_commits, (&commits,), log),
        call_ensures(print_file_changes, (&changes,), listed),
    ensures
        d == Data::Repo(repo) ==> prints(r, lines_view(status@)),
        d == Data::Commits(commits) ==> prints(r, lines_view(log@)),
        d == Data::Changes(changes) ==> prints(r, lines_view(listed@)),
{
}

/// Branches and stashes are printed by lines as well.
pub proof fn more_lines_are_printed_as_such(
    d: Data,
    r: Vec<Printed>,
    branches: Vec<BranchInfo>,
    heads: Vec<Vec<Span>>,
    stashes: Vec<StashEntry>,
    stashed: Vec<Vec<Span>>,
)
    requires
        call_ensures(data_text, (&d,), r),
        call_ensures(print_branches, (&branches,), heads),
        call_ensures(print_stashes, (&stashes,), stashed),
    ensures
        d == Data::Branches(branches) ==> prints(r, lines_view(heads@)),
        d == Data::Stashes(stashes) ==> prints(r, lines_view(stashed@)),
{
}

/// A commit is printed by its id, its files and its diff, with an empty line
/// between each two.
pub proof fn a_commit_is_printed_whole(
    commit: String,
    files: Vec<CommitFileChange>,
    diff: String,
    r: Vec<Printed>,
    shown: Vec<Vec<Span>>,
    s: &str,
    patch: Vec<Vec<Span>>,
)
    requires
        call_ensures(data_text, (&Data::Commit { commit, files, diff },), r),
        call_ensures(print_commit_files, (&files,), shown),
        s@ == diff@,
        call_ensures(print_diff, (s,), patch),
    ensures
        ({
            let p = printed_view(r@);
            let f = lines_view(shown@);
            let l = lines_view(patch@);
            &&& p.len() == 3 + f.len() + l.len()
            &&& p[0] matches PrintedView::Line(head)
            &&& head.len() == 2 && head[0].text == "commit"@ && head[1].text == " "@ + commit@
            &&& p[1] == PrintedView::Line(seq![])
            &&& forall|i: int| 0 <= i < f.len() ==> p[2 + i] == PrintedView::Line(#[trigger] f[i])
            &&& p[2 + f.len() as int] == PrintedView::Line(seq![])
            &&& forall|i: int|
                0 <= i < l.len() ==> p[3 + f.len() + i] == PrintedView::Line(#[trigger] l[i])
        }),
{
}

/// A diff is printed by its lines; where it is empty, that is said.
pub proof fn a_diff_is_printed(diff: String, r: Vec<Printed>, s: &str, patch: Vec<Vec<Span>>)
    requires
        call_ensures(data_text, (&Data::Diff(diff),), r),
        s@ == diff@,
        call_ensures(print_diff, (s,), patch),
    ensures
        diff@.len() == 0 ==> printed_view(r@).len() == 1 && is_line(
            printed_view(r@)[0],
            "(no changes)"@,
        ),
        diff@.len() > 0 ==> prints(r, lines_view(patch@)),
{
}

/// What was committed or squashed is told by the first seven digits of the new
/// id.
pub proof fn new_commits_are_told(oid: String, message: String, count: usize, a: Vec<Printed>, b: Vec<Printed>)
    requires
        oid@.len() > 7,
        call_ensures(data_text, (&Data::Committed { oid, message },), a),
        call_ensures(data_text, (&Data::Squashed { oid, count },), b),
    ensures
        ({
            let p = printed_view(a@);
            let q = printed_view(b@);
            &&& p.len() == 2
            &&& p[0] matches PrintedView::Line(l)
            &&& l.len() == 2 && l[0].text == "commit"@ && l[1].text == " "@ + oid@.take(7)
            &&& is_line(p[1], "  "@ + message@)
            &&& q.len() == 1
            &&& q[0] matches PrintedView::Line(m)
            &&& m.len() == 2 && m[0].text == "squashed"@
            &&& m[1].text == " "@ + decimal_of(count as nat) + " commits into "@ + oid@.take(7)
        }),
{
}

/// The rest is printed as one text or a few: who commits, the readme file, a
/// page, remarks, and what was done.
pub proof fn texts_are_printed(d: Data, r: Vec<Printed>)
    requires
        call_ensures(data_text, (&d,), r),
    ensures
        ({
            let p = printed_view(r@);
            &&& d matches Data::Profile(u) ==> {
                &&& p.len() == 2
                &&& is_line(p[0], "  user.name:  "@ + u.name@)
                &&& is_line(p[1], "  user.email: "@ + u.email@)
            }
            &&& d matches Data::Readme(Some(s)) ==> p.len() == 1 && p[0] == PrintedView::Raw(s@)
            &&& d matches Data::Readme(None) ==> p.len() == 1 && is_line(
                p[0],
                "(no README found)"@,
            )
            &&& d matches Data::Page(s) ==> p.len() == 1 && is_line(p[0], s@)
            &&& d matches Data::Remark(s) ==> p.len() == 1 && is_line(p[0], s@)
            &&& d matches Data::Did { what, rest } ==> {
                &&& p.len() == 1
                &&& p[0] matches PrintedView::Line(l)
                &&& l.len() == 2 && l[0].text == what@ && l[1].text == rest@
                &&& l[0].style.fg == Some(Color::Green)
            }
            &&& d matches Data::Pushed { repo, error } ==> p.len() == 0
            &&& d matches Data::Bulk(v) ==> p.len() == 0
        }),
{
}

/// The word for an operation.
pub open spec fn word_for(op: Op) -> Seq<char> {
    match op {
        Op::Fetch => "fetch"@,
        Op::Pull => "pull"@,
        Op::Push => "push"@,
    }
}

/// What an operation came to is told with its name and its repository: a check
/// mark where it was done, and a cross and the reason where it failed.
pub proof fn outcomes_are_told(
    op: Op,
    name: String,
    error: Option<String>,
    r: Vec<Printed>,
    word: &'static str,
)
    requires
        call_ensures(data_text, (&Data::Outcome { op, name, error },), r),
        call_ensures(op_name, (op,), word),
    ensures
        word@ == word_for(op),
        ({
            let p = printed_view(r@);
            &&& p.len() == 1
            &&& p[0] matches PrintedView::Line(l)
            &&& l.len() == 3 && l[0].text == "  "@
            &&& error is None ==> {
                &&& l[1].text == "✓"@ && l[1].style.fg == Some(Color::Green)
                &&& l[2].text == " "@ + word_for(op) + " "@ + name@
            }
            &&& error matches Some(e) ==> {
                &&& l[1].text == "✗"@ && l[1].style.fg == Some(Color::Red)
                &&& l[2].text == " "@ + word_for(op) + " "@ + name@ + ": "@ + e@
            }
        }),
{
}

/// The roots are printed one to a line; where there are none, what is scanned
/// instead is said.
pub proof fn roots_are_printed(roots: Vec<String>, a: Vec<Printed>, b: Vec<Printed>, i: int)
    requires
        call_ensures(data_text, (&Data::Config(roots),), a),
        call_ensures(data_text, (&Data::Roots(roots),), b),
    ensures
        ({
            let p = printed_view(a@);
            let q = printed_view(b@);
            &&& p.len() == 1
            &&& roots@.len() == 0 ==> is_line(
                p[0],
                "scan roots:\n  "@ + "(none; defaulting to ~/dev)"@,
            )
            &&& roots@.len() > 0 ==> is_line(
                p[0],
                "scan roots:\n  "@ + joined(texts(roots@), "\n  "@),
            )
            &&& roots@.len() == 0 ==> q.len() == 1 && is_line(q[0], "(no scan roots configured)"@)
            &&& roots@.len() > 0 ==> q.len() == roots@.len()
            &&& 0 <= i < roots@.len() ==> is_line(q[i], roots@[i]@)
        }),
{
    assert(texts(roots@).len() == roots@.len());
    if 0 <= i < roots@.len() {
        assert(texts(roots@)[i] == roots@[i]@);
    }
}

/// Notices say what starts, and what to do where nothing is known.
pub proof fn notices_say_what_starts(n: Notice, r: Vec<Span>)
    requires
        call_ensures(notice_text, (&n,), r),
    ensures
        ({
            let l = line_view(r@);
            match n {
                Notice::Scanning(roots) => {
                    &&& l.len() == 1
                    &&& l[0].text == "Scanning "@ + joined(texts(roots@), ", "@) + "..."@
                },
                Notice::NothingCached(None) => {
                    &&& l.len() == 1
                    &&& l[0].text == "No cached repos"@ + ""@ + ". Run `gitatlas scan` first."@
                },
                Notice::NothingCached(Some(q)) => {
                    &&& l.len() == 1
                    &&& l[0].text == "No cached repos"@ + (" matching '"@ + q@ + "'"@)
                        + ". Run `gitatlas scan` first."@
                },
                Notice::Working(op, name) => {
                    &&& l.len() == 2
                    &&& l[0].text == word_for(op)
                    &&& l[1].text == " "@ + name@
                },
            }
        }),
{
}

/// The health of a repository is printed by its word.
pub proof fn healths_are_printed(h: RepoHealth, r: Span)
    requires
        call_ensures(health_cell, (h,), r),
    ensures
        r.text@ == word_of(h),
        r.style.bold,
{
    assert(r@.text == r.text@ && r@.style == r.style);
}

} // verus!
