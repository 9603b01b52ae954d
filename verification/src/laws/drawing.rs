//! What is on the screen: each thing where the user looks for it.
use vstd::prelude::*;
use vstd::string::*;

use crate::laws::interface::{in_row, places_are_those_of_rows, rows_above};
use crate::laws::printing::{letter_of, word_of};
use crate::models::{FileStatus, RefKind, RefLabel, RepoHealth, RepoInfo};
use crate::style::{lines_view, Color, Span, Style};
use crate::text::{decimal_of, first_line_of, joined, two_digits_of};
use crate::tui::app::{App, BulkOp, Detail, Level, Mode, SingleOp, SingleState, Tab};
use crate::tui::format::{bytes_text, duration_text, fmt_bytes, fmt_duration, nearest,
    spinner_frame};
use crate::tui::view::{centered, count_cell, draw, draw_dashboard, draw_detail, draw_header,
    draw_help, draw_statusline, draw_tab_branches, draw_tab_changes, draw_tab_history,
    draw_tab_readme, draw_tab_stashes, file_status_style, health_color, labels_listed, name_cell,
    progress_parts, ref_span, single_progress_summary, Area, Body, BodyView, Main, MainView, Screen,
    TableModel, Width};

verus! {

// ── The dashboard ────────────────────────

/// The dashboard has a row for each repository that is shown, in order, and
/// what stands below a heading is what the heading says.
pub proof fn the_dashboard_shows_each_repository(app: &mut App, r: TableModel, s: int, i: int)
    requires
        old(app).repos@.len() <= usize::MAX,
        call_ensures(draw_dashboard, (app,), r),
        in_row(final(app)@, s, i),
    ensures
        ({
            let t = r@;
            let repo = final(app).repos@[i];
            let row = t.rows[s];
            &&& t.header.len() == 8 && 0 <= s < t.rows.len() && row.len() == 8
            &&& forall|k: int| 0 <= k < 8 ==> (#[trigger] row[k]).len() == 1
            &&& t.widths == seq![
                Width::Length(28),
                Width::Length(22),
                Width::Length(6),
                Width::Length(6),
                Width::Length(6),
                Width::Length(6),
                Width::Length(10),
                Width::Min(20),
            ]
            &&& t.header[0].text == "NAME"@ && row[0][0].text == repo.name@
            &&& t.header[1].text == "BRANCH"@ && row[1][0].text == repo.branch@
            &&& t.header[2].text == "AHEAD"@ && row[2][0].text == decimal_of(repo.ahead as nat)
            &&& t.header[3].text == "BEHIND"@ && row[3][0].text == decimal_of(repo.behind as nat)
            &&& t.header[4].text == "DIRTY"@ && row[4][0].text == decimal_of(
                repo.dirty_files as nat,
            )
            &&& t.header[5].text == "STASH"@ && row[5][0].text == decimal_of(
                repo.stash_count as nat,
            )
            &&& t.header[6].text == "HEALTH"@ && row[6][0].text == word_of(repo.health)
            &&& t.header[7].text == "PATH"@ && row[7][0].text == repo.path@
        }),
{
    let a = final(app)@;
    places_are_those_of_rows(a);
    assert(rows_above(a, i) == s);
    assert(a.filtered()[s] == i);
    assert(r@.rows[s] == crate::tui::view::dash_row(a.repos[i]));
}

/// No other rows are on the dashboard, and the selected one is marked: the one
/// that was selected, or the last one where there are fewer, or the first one
/// where none was.
pub proof fn the_dashboard_marks_the_selected_row(app: &mut App, r: TableModel)
    requires
        old(app).repos@.len() <= usize::MAX,
        call_ensures(draw_dashboard, (app,), r),
    ensures
        final(app).repos@ == old(app).repos@,
        final(app).filter_health == old(app).filter_health,
        final(app).search@ == old(app).search@,
        final(app).mode == old(app).mode,
        ({
            let n = rows_above(old(app)@, old(app).repos@.len() as int);
            &&& r@.rows.len() == n
            &&& r@.selected == final(app).dash_sel
            &&& n == 0 ==> final(app).dash_sel is None
            &&& n > 0 ==> final(app).dash_sel == Some(
                match old(app).dash_sel {
                    Some(s) => if s < n {
                        s
                    } else {
                        (n - 1) as usize
                    },
                    None => 0,
                },
            )
        }),
        r@.title == match old(app).filter_health {
            Some(h) => " repositories (filter: "@ + word_of(h) + ") "@,
            None => " repositories "@,
        },
{
    let a = old(app)@;
    let b = final(app)@;
    places_are_those_of_rows(a);
    places_are_those_of_rows(b);
    assert(a.filtered() == b.filtered());
    assert(a.search == old(app).search@ && b.search == final(app).search@);
}

/// Repositories that need attention stand out by their color.
pub proof fn healths_have_colors(h: RepoHealth, c: Color, repo: RepoInfo, s: Span)
    requires
        call_ensures(health_color, (h,), c),
        call_ensures(name_cell, (&repo,), s),
    ensures
        c == match h {
            RepoHealth::Clean => Color::Green,
            RepoHealth::Dirty => Color::Yellow,
            RepoHealth::Diverged => Color::Magenta,
            RepoHealth::Error => Color::Red,
        },
        s.text@ == repo.name@,
        s.style.bold,
        s.style.fg == match repo.health {
            RepoHealth::Clean => None,
            RepoHealth::Dirty => Some(Color::Yellow),
            RepoHealth::Diverged => Some(Color::Magenta),
            RepoHealth::Error => Some(Color::Red),
        },
{
    assert(s@.text == s.text@ && s@.style == s.style);
}

/// A count is written out; where it is zero it is gray.
pub proof fn counts_are_written_out(n: u32, style: Style, s: Span)
    requires
        call_ensures(count_cell, (n, style), s),
    ensures
        s.text@ == decimal_of(n as nat),
        n > 0 ==> s.style == style,
        n == 0 ==> s.style.fg == Some(Color::DarkGray),
{
    assert(s@.text == s.text@ && s@.style == s.style);
}

// ── Around the screen ────────────────────

/// The header says where the user is: on the dashboard, in a search with its
/// text, in a repository with its name, or in the help.
pub proof fn the_header_says_where_we_are(app: App, r: (Vec<Span>, Vec<Span>))
    requires
        call_ensures(draw_header, (&app,), r),
    ensures
        ({
            let l = crate::style::line_view(r.0@);
            &&& l.len() == 3 && l[0].text == " GitAtlas "@ && l[1].text == "  "@
            &&& app.mode == Mode::Dashboard ==> l[2].text == "dashboard"@
            &&& app.mode == Mode::Search ==> l[2].text == "search: "@ + app.search@ + "_"@
            &&& app.mode == Mode::Help ==> l[2].text == "help"@
            &&& app.mode == Mode::Detail ==> (app.detail matches Some(d) ==> (d.repo_index
                < app.repos@.len() ==> l[2].text == "repo: "@ + app.repos@[d.repo_index as int].name@))
        }),
{
    if let Some(d) = app.detail {
        assert(app@.detail == Some(d@));
        assert(d@.repo_index == d.repo_index);
    }
}

/// The header says what is shown: the filter, and how many repositories.
pub proof fn the_header_says_what_is_shown(app: App, r: (Vec<Span>, Vec<Span>))
    requires
        app.repos@.len() <= usize::MAX,
        call_ensures(draw_header, (&app,), r),
    ensures
        ({
            let l = crate::style::line_view(r.1@);
            &&& l.len() == 5
            &&& app.filter_health is None ==> l[0].text == "all"@
            &&& app.filter_health matches Some(h) ==> l[0].text == "filter:"@ + word_of(h)
            &&& l[2].text == decimal_of(rows_above(app@, app.repos@.len() as int) as nat)
                + " repos"@
            &&& l[4].text == "? help"@
        }),
{
    places_are_those_of_rows(app@);
}

/// The status line says what runs on several repositories, or else on one, or
/// else the latest message, or else what keys there are.
pub proof fn the_status_says_what_runs(app: App, now: u64, r: Span, s: SingleState, p: String)
    requires
        call_ensures(draw_statusline, (&app, now), r),
        app.single == Some(s),
        call_ensures(single_progress_summary, (&s, now), p),
    ensures
        app.bulk is None ==> r.text@ == " "@ + p@ + " "@,
        app.bulk matches Some(b) ==> r.text@ == " "@ + (match b.op {
            BulkOp::Fetch => "fetch"@,
            BulkOp::Pull => "pull"@,
        }) + " "@ + decimal_of(b.done as nat) + "/"@ + decimal_of(b.total as nat) + " "@ + (
        match b.current {
            Some(c) => c@,
            None => ""@,
        }),
{
    assert(r@.text == r.text@);
    assert(app@.single == Some(s@));
    if let Some(b) = app.bulk {
        assert(app@.bulk == Some(b@));
    }
}

/// Where nothing runs, the latest message is shown in the color of its level,
/// and without one the keys are.
pub proof fn the_status_says_messages(app: App, now: u64, r: Span)
    requires
        call_ensures(draw_statusline, (&app, now), r),
        app.bulk is None,
        app.single is None,
    ensures
        app.status matches Some(m) ==> {
            &&& r.text@ == " "@ + m.text@
            &&& r.style.fg == Some(
                match m.level {
                    Level::Info => Color::Blue,
                    Level::Success => Color::Green,
                    Level::Warn => Color::Yellow,
                    Level::Error => Color::Red,
                },
            )
        },
        app.status is None ==> r.text@ == match app.mode {
            Mode::Dashboard => " ↑/↓ move  enter open  /search  a/c/d/v/e filter  f fetch  p pull  P push  F/U bulk  s scan  q quit"@,
            Mode::Search => " type to filter   enter apply   esc cancel"@,
            Mode::Detail => " ←/→ tab  ↑/↓ move  f fetch  p pull  P push  R reload  esc back  q quit"@,
            Mode::Help => " esc/? close help"@,
        },
{
    assert(r@.text == r.text@ && r@.style == r.style);
    if let Some(m) = app.status {
        assert(app@.status == Some(m@));
    }
}

/// The progress of an operation begins with its repository and what is being
/// done there.
pub proof fn progress_names_its_repository(s: SingleState, now: u64, r: String, c: char)
    requires
        now >= s.started,
        call_ensures(single_progress_summary, (&s, now), r),
        call_ensures(spinner_frame, ((now - s.started) as u64,), c),
    ensures
        r@ == seq![c] + " "@ + s.name@ + " "@ + joined(progress_parts(s@, now), " • "@),
        ({
            let v = progress_parts(s@, now);
            &&& v.len() >= 2
            &&& v[0] == match s.progress.stage {
                Some(t) => t@,
                None => match s.op {
                    SingleOp::Fetch => "fetching"@,
                    SingleOp::Pull => "pulling"@,
                    SingleOp::Push => "pushing"@,
                },
            }
            &&& v.last() == duration_text((now - s.started) as nat)
        }),
{
    assert(s@.progress.stage == crate::text::opt_view(s.progress.stage));
}

/// The progress tells, behind the stage, how much was received or sent, the
/// step of a rebase, and the latest reference or line from the server.
pub proof fn progress_is_told(s: SingleState, now: u64)
    ensures
        ({
            let v = progress_parts(s@, now);
            let p = s.progress;
            &&& p.transfer matches Some(t) ==> (t.3 > 0 && p.push is None && p.rebase is None ==> v[1]
                == bytes_text(t.0 as nat) + " • "@ + decimal_of(t.2 as nat) + "/"@ + decimal_of(
                t.3 as nat,
            ) + " objects (indexed "@ + decimal_of(t.1 as nat) + ")"@)
            &&& p.transfer is None ==> (p.push matches Some(t) ==> (t.1 > 0 ==> v[1] == decimal_of(
                t.0 as nat,
            ) + "/"@ + decimal_of(t.1 as nat) + " objects • "@ + bytes_text(t.2 as nat)))
            &&& p.transfer is None && p.push is None ==> (p.rebase matches Some(t) ==> (t.1 > 0
                ==> v[1] == "rebase "@ + (decimal_of(t.0 as nat) + "/"@ + decimal_of(t.1 as nat))))
            &&& p.tip matches Some(t) ==> v[v.len() - 2] == t@
            &&& p.tip is None ==> (p.sideband matches Some(t) ==> v[v.len() - 2] == t@)
        }),
{
    let p = s@.progress;
    assert(p.tip == crate::text::opt_view(s.progress.tip));
    assert(p.sideband == crate::text::opt_view(s.progress.sideband));
    assert(p.transfer == s.progress.transfer && p.push == s.progress.push && p.rebase
        == s.progress.rebase);
}

/// Times are written in milliseconds, in seconds and tenths, or in minutes and
/// seconds.
pub proof fn times_are_written_out(m: u64, r: String)
    requires
        call_ensures(fmt_duration, (m,), r),
    ensures
        m < 1000 ==> r@ == decimal_of(m as nat) + "ms"@,
        1000 <= m < 60000 ==> r@ == decimal_of((m / 1000) as nat) + "."@ + decimal_of(
            ((m % 1000) / 100) as nat,
        ) + "s"@,
        60000 <= m ==> r@ == decimal_of((m / 60000) as nat) + "m"@ + two_digits_of(
            ((m / 1000) % 60) as nat,
        ) + "s"@,
{
    assert((m as nat / 1000) / 60 == m as nat / 60000) by (nonlinear_arith);
}

/// A spinner turns by a frame every eighty milliseconds, through ten frames.
pub proof fn the_spinner_turns(m: u64, c: char)
    requires
        call_ensures(spinner_frame, (m,), c),
    ensures
        ({
            let k = (m as int / 80) % 10;
            &&& k == 0 ==> c == '⠋'
            &&& k == 1 ==> c == '⠙'
            &&& k == 2 ==> c == '⠹'
            &&& k == 3 ==> c == '⠸'
            &&& k == 4 ==> c == '⠼'
            &&& k == 5 ==> c == '⠴'
            &&& k == 6 ==> c == '⠦'
            &&& k == 7 ==> c == '⠧'
            &&& k == 8 ==> c == '⠇'
            &&& k == 9 ==> c == '⠏'
        }),
{
}

/// The whole number nearest to a quotient is no more than a half away from it,
/// and of two that are as near it is the even one.
pub proof fn nearest_is_nearest(a: int, b: int)
    requires
        0 <= a,
        0 < b,
    ensures
        ({
            let q = nearest(a, b);
            &&& -b <= 2 * (a - q * b) <= b
            &&& 2 * (a - q * b) == b || 2 * (a - q * b) == -b ==> q % 2 == 0
        }),
{
    let q = a / b;
    let r = a % b;
    assert(a == q * b + r && 0 <= r < b && 0 <= q) by (nonlinear_arith)
        requires
            0 <= a,
            0 < b,
            q == a / b,
            r == a % b,
    ;
    assert((q + 1) * b == q * b + b) by (nonlinear_arith);
}

/// Sizes below a kilobyte are written in bytes; others with one digit behind
/// the point, in the largest unit of which there is at least one.
pub proof fn sizes_are_written_out(n: usize, r: String)
    requires
        call_ensures(fmt_bytes, (n,), r),
        n < 0x20_0000_0000_0000,
    ensures
        ({
            let (unit, name) = if n >= 0x4000_0000 {
                (0x4000_0000int, " GB"@)
            } else if n >= 0x10_0000 {
                (0x10_0000, " MB"@)
            } else {
                (0x400, " KB"@)
            };
            let tenths = nearest(10 * n, unit);
            &&& n < 0x400 ==> r@ == decimal_of(n as nat) + " B"@
            &&& n >= 0x400 ==> r@ == decimal_of((tenths / 10) as nat) + "."@ + decimal_of(
                (tenths % 10) as nat,
            ) + name
        }),
{
    assert(crate::tui::format::step_at(n as int, 1) == 1);
    assert(nearest(n as int, 1) == n);
    assert(crate::tui::format::significant(n as int) == n);
}

// ── A repository ─────────────────────────

/// A repository that is open is shown with its summary, the tabs, and the
/// current one of them marked.
pub proof fn the_open_repository_is_shown(app: App, d: Detail, r: Main)
    requires
        app.detail == Some(d),
        call_ensures(draw_detail, (&app,), r),
    ensures
        d.repo_index >= app.repos@.len() ==> r@ is Nothing,
        d.repo_index < app.repos@.len() ==> {
            let repo = app.repos@[d.repo_index as int];
            &&& r@ matches MainView::Detail(m)
            &&& m.tabs == seq!["Changes"@, "History"@, "Branches"@, "Stashes"@, "README"@]
            &&& m.selected_tab == match d.tab {
                Tab::Changes => 0int,
                Tab::History => 1,
                Tab::Branches => 2,
                Tab::Stashes => 3,
                Tab::Readme => 4,
            }
            &&& m.summary.len() == 2
            &&& m.summary[0].len() == 18
            &&& m.summary[0][0].text == repo.name@
            &&& m.summary[0][1].text == "  "@ && m.summary[0][4].text == "   "@
            &&& m.summary[0][7].text == " "@ && m.summary[0][10].text == "   "@
            &&& m.summary[0][13].text == "   "@ && m.summary[0][16].text == "   "@
            &&& m.summary[0][2].text == "on "@ && m.summary[0][3].text == repo.branch@
            &&& m.summary[0][5].text == "↑"@ && m.summary[0][6].text == decimal_of(
                repo.ahead as nat,
            )
            &&& m.summary[0][8].text == "↓"@ && m.summary[0][9].text == decimal_of(
                repo.behind as nat,
            )
            &&& m.summary[0][11].text == "dirty "@ && m.summary[0][12].text == decimal_of(
                repo.dirty_files as nat,
            )
            &&& m.summary[0][14].text == "stash "@ && m.summary[0][15].text == decimal_of(
                repo.stash_count as nat,
            )
            &&& m.summary[0][17].text == word_of(repo.health)
            &&& m.summary[1].len() == 2
            &&& m.summary[1][0].text == "path:   "@ && m.summary[1][1].text == repo.path@
        },
{
    assert(app@.detail == Some(d@));
    assert(d@.repo_index == d.repo_index && d@.tab == d.tab);
}

/// Below the tabs stands what the current tab shows.
pub proof fn the_current_tab_is_shown(
    app: App,
    d: Detail,
    r: Main,
    changes: Body,
    history: Body,
    branches: Body,
    stashes: Body,
    readme: Body,
)
    requires
        app.detail == Some(d),
        d.repo_index < app.repos@.len(),
        call_ensures(draw_detail, (&app,), r),
        call_ensures(draw_tab_changes, (&d,), changes),
        call_ensures(draw_tab_history, (&d,), history),
        call_ensures(draw_tab_branches, (&d,), branches),
        call_ensures(draw_tab_stashes, (&d,), stashes),
        call_ensures(draw_tab_readme, (&d,), readme),
    ensures
        r@ matches MainView::Detail(m) && m.body == match d.tab {
            Tab::Changes => changes@,
            Tab::History => history@,
            Tab::Branches => branches@,
            Tab::Stashes => stashes@,
            Tab::Readme => readme@,
        },
{
    assert(app@.detail == Some(d@));
    assert(d@.repo_index == d.repo_index && d@.tab == d.tab);
}

/// A tab that has not loaded says so, and one with nothing in it says that.
pub open spec fn remarks(b: Body, title: Seq<char>, text: Seq<char>) -> bool {
    b@ matches BodyView::Remark { title: t, text: s } && t == title && s == text
}

/// The tab of the changes has a row for each: its side, the letter of its
/// status, and its path.
pub proof fn the_tab_shows_changes(d: Detail, r: Body, i: int)
    requires
        call_ensures(draw_tab_changes, (&d,), r),
    ensures
        d.changes is None ==> remarks(r, " changes "@, "loading…"@),
        d.changes matches Some(v) ==> {
            &&& v@.len() == 0 ==> remarks(r, " changes "@, "(clean working tree)"@)
            &&& 0 <= i < v@.len() ==> {
                &&& r@ matches BodyView::Table(t)
                &&& t.title == " changes "@ && t.selected == d.changes_sel
                &&& t.rows.len() == v@.len() && t.rows[i].len() == 3
                &&& t.widths == seq![Width::Length(10), Width::Length(4), Width::Min(10)]
                &&& t.header.len() == 3 && t.header[0].text == "STAGED"@
                &&& v@[i].staged ==> t.rows[i][0][0].text == "staged"@
                &&& !v@[i].staged ==> t.rows[i][0][0].text == "unstaged"@
                &&& t.header[1].text == "ST"@ && t.rows[i][1][0].text == letter_of(v@[i].status)
                &&& t.header[2].text == "PATH"@ && t.rows[i][2][0].text == v@[i].path@
            }
        },
{
    assert(d@.changes_sel == d.changes_sel);
    if let Some(v) = d.changes {
        assert(d@.changes == Some(v@));
    } else {
        assert(d@.changes is None);
    }
}

/// The tab of the history has a row for each commit: its id, its day, its
/// author, its labels, and the first line of its message.
pub proof fn the_tab_shows_commits(d: Detail, r: Body, i: int)
    requires
        call_ensures(draw_tab_history, (&d,), r),
    ensures
        d.commits is None ==> remarks(r, " history "@, "loading…"@),
        d.commits matches Some(v) ==> {
            &&& v@.len() == 0 ==> remarks(r, " history "@, "(no commits)"@)
            &&& 0 <= i < v@.len() ==> {
                &&& r@ matches BodyView::Table(t)
                &&& t.title == " history "@ && t.selected == d.commits_sel
                &&& t.rows.len() == v@.len() && t.rows[i].len() == 5
                &&& t.widths == seq![
                    Width::Length(8),
                    Width::Length(10),
                    Width::Length(20),
                    Width::Length(24),
                    Width::Min(20),
                ]
                &&& t.header.len() == 5
                &&& t.header[0].text == "SHA"@ && t.rows[i][0][0].text == v@[i].short_oid@
                &&& t.header[1].text == "DATE"@ && t.rows[i][1][0].text
                    == crate::tui::view::day_of(v@[i].date@)
                &&& t.header[2].text == "AUTHOR"@ && t.rows[i][2][0].text == v@[i].author@
                &&& t.header[3].text == "REFS"@ && t.rows[i][3] == labels_listed(v@[i].refs@)
                &&& t.header[4].text == "MESSAGE"@ && t.rows[i][4][0].text == first_line_of(
                    v@[i].message@,
                )
            }
        },
{
    assert(d@.commits_sel == d.commits_sel);
    if let Some(v) = d.commits {
        assert(d@.commits == Some(v@));
    } else {
        assert(d@.commits is None);
    }
}

/// The day of a date is what stands before the `T`.
pub proof fn days_come_before_times(day: Seq<char>, time: Seq<char>)
    requires
        !day.contains('T'),
    ensures
        crate::tui::view::day_of(day + seq!['T'] + time) == day,
        crate::tui::view::day_of(day) == day,
{
    crate::laws::words::the_first_mark_cuts(day, 'T', time);
}

/// Labels are listed in order with commas between them, each as its kind.
pub proof fn labels_are_drawn(refs: Seq<RefLabel>, l: RefLabel, s: Span)
    requires
        call_ensures(ref_span, (&l,), s),
    ensures
        s.text@ == match l.kind {
            RefKind::Head => "HEAD→"@ + l.name@,
            RefKind::Local => l.name@,
            RefKind::Remote => "r/"@ + l.name@,
            RefKind::Tag => "tag:"@ + l.name@,
        },
        labels_listed(seq![]).len() == 0,
        labels_listed(seq![l]) == seq![s@],
        refs.len() > 0 ==> {
            let all = labels_listed(refs.push(l));
            &&& all.len() == labels_listed(refs).len() + 2
            &&& all.take(labels_listed(refs).len() as int) == labels_listed(refs)
            &&& all[all.len() - 2].text == ","@
            &&& all.last() == s@
        },
{
    assert(s@.text == s.text@);
    assert(labels_listed(seq![l]) =~= seq![s@]);
    if refs.len() > 0 {
        assert(refs.push(l).drop_last() =~= refs);
        assert(labels_listed(refs.push(l)).take(labels_listed(refs).len() as int)
            =~= labels_listed(refs));
    }
}

/// The tab of the branches has a row for each: a star where HEAD is, its kind,
/// its name, and its upstream.
pub proof fn the_tab_shows_branches(d: Detail, r: Body, i: int)
    requires
        call_ensures(draw_tab_branches, (&d,), r),
    ensures
        d.branches is None ==> remarks(r, " branches "@, "loading…"@),
        d.branches matches Some(v) ==> {
            &&& v@.len() == 0 ==> remarks(r, " branches "@, "(no branches)"@)
            &&& 0 <= i < v@.len() ==> {
                let b = v@[i];
                &&& r@ matches BodyView::Table(t)
                &&& t.title == " branches "@ && t.selected == d.branches_sel
                &&& t.rows.len() == v@.len() && t.rows[i].len() == 4
                &&& b.is_head ==> t.rows[i][0][0].text == "*"@ && t.rows[i][1][0].text == "HEAD"@
                &&& !b.is_head ==> t.rows[i][0][0].text == " "@
                &&& !b.is_head && b.is_remote ==> t.rows[i][1][0].text == "remote"@
                &&& !b.is_head && !b.is_remote ==> t.rows[i][1][0].text == "local"@
                &&& t.widths == seq![
                    Width::Length(2),
                    Width::Length(8),
                    Width::Min(20),
                    Width::Min(20),
                ]
                &&& t.header[0].text == ""@ && t.header[1].text == "KIND"@
                &&& t.header[2].text == "NAME"@ && t.rows[i][2][0].text == b.name@
                &&& t.header[3].text == "UPSTREAM"@
                &&& b.upstream matches Some(u) ==> t.rows[i][3][0].text == u@
                &&& b.upstream is None ==> t.rows[i][3][0].text == ""@
            }
        },
{
    assert(d@.branches_sel == d.branches_sel);
    if let Some(v) = d.branches {
        assert(d@.branches == Some(v@));
    } else {
        assert(d@.branches is None);
    }
}

/// The tab of the stashes has a row for each: its number and its message.
pub proof fn the_tab_shows_stashes(d: Detail, r: Body, i: int)
    requires
        call_ensures(draw_tab_stashes, (&d,), r),
    ensures
        d.stashes is None ==> remarks(r, " stashes "@, "loading…"@),
        d.stashes matches Some(v) ==> {
            &&& v@.len() == 0 ==> remarks(r, " stashes "@, "(no stashes)"@)
            &&& 0 <= i < v@.len() ==> {
                &&& r@ matches BodyView::Table(t)
                &&& t.title == " stashes "@ && t.selected == d.stashes_sel
                &&& t.rows.len() == v@.len() && t.rows[i].len() == 2
                &&& t.widths == seq![Width::Length(12), Width::Min(20)]
                &&& t.header[0].text == "REF"@ && t.rows[i][0][0].text == "stash@{"@ + decimal_of(
                    v@[i].index as nat,
                ) + "}"@
                &&& t.header[1].text == "MESSAGE"@ && t.rows[i][1][0].text == v@[i].message@
            }
        },
{
    assert(d@.stashes_sel == d.stashes_sel);
    if let Some(v) = d.stashes {
        assert(d@.stashes == Some(v@));
    } else {
        assert(d@.stashes is None);
    }
}

/// The tab of the readme file shows its text from where it was scrolled to.
pub proof fn the_tab_shows_the_readme(d: Detail, r: Body)
    requires
        call_ensures(draw_tab_readme, (&d,), r),
    ensures
        r@ matches BodyView::Page { title, text, scroll } && title == " README "@ && scroll
            == d.readme_scroll && text == match d.readme {
            Some(s) => if s@.len() == 0 {
                "(README is empty)"@
            } else {
                s@
            },
            None => "loading…"@,
        },
{
    assert(d@.readme == crate::text::opt_view(d.readme));
    assert(d@.readme_scroll == d.readme_scroll);
}

/// Each status of a file has its color.
pub proof fn statuses_have_colors(s: FileStatus, r: Style)
    requires
        call_ensures(file_status_style, (s,), r),
    ensures
        r.fg == Some(
            match s {
                FileStatus::Added => Color::Green,
                FileStatus::Modified => Color::Yellow,
                FileStatus::Deleted => Color::Red,
                FileStatus::Renamed => Color::Cyan,
                FileStatus::Untracked => Color::DarkGray,
                FileStatus::Conflicted => Color::Red,
            },
        ),
        r.bold <==> s == FileStatus::Conflicted,
{
}

// ── The whole screen ─────────────────────

/// The screen is the header, the open repository or the dashboard, the help
/// over it where it was asked for, and the status line.
pub proof fn the_screen_holds_its_parts(
    app: &mut App,
    now: u64,
    r: Screen,
    header: (Vec<Span>, Vec<Span>),
    status: Span,
    detail: Main,
    help: Vec<Vec<Span>>,
)
    requires
        call_ensures(draw, (app, now), r),
        call_ensures(draw_header, (&*final(app),), header),
        call_ensures(draw_statusline, (&*final(app), now), status),
        call_ensures(draw_detail, (&*final(app),), detail),
        call_ensures(draw_help, (), help),
    ensures
        final(app).mode == old(app).mode,
        final(app).repos@ == old(app).repos@,
        r@.title == crate::style::line_view(header.0@),
        r@.right == crate::style::line_view(header.1@),
        r@.status == status@,
        final(app).mode == Mode::Detail ==> r@.main == detail@,
        final(app).mode != Mode::Detail ==> r@.main is Dashboard,
        final(app).mode == Mode::Help ==> r@.help == Some(lines_view(help@)),
        final(app).mode != Mode::Help ==> r@.help is None,
{
    let (a, b) = (old(app)@, final(app)@);
    assert(a.mode == old(app).mode && b.mode == final(app).mode);
    assert(a.repos == old(app).repos@ && b.repos == final(app).repos@);
}

/// Off the details of a repository, the screen holds the dashboard.
pub proof fn the_screen_holds_the_dashboard(app: &mut App, now: u64, r: Screen, s: int, i: int)
    requires
        old(app).repos@.len() <= usize::MAX,
        old(app).mode != Mode::Detail,
        call_ensures(draw, (app, now), r),
        in_row(final(app)@, s, i),
    ensures
        r@.main matches MainView::Dashboard(t) && 0 <= s < t.rows.len() && t.rows[s].len() == 8
            && t.rows[s][0][0].text == final(app).repos@[i].name@ && t.rows[s][7][0].text
            == final(app).repos@[i].path@ && t.selected == final(app).dash_sel,
{
    let (a, b) = (old(app)@, final(app)@);
    assert(a.mode == old(app).mode && b.mode == final(app).mode);
    places_are_those_of_rows(b);
    assert(rows_above(b, i) == s);
    assert(b.filtered()[s] == i);
    if let MainView::Dashboard(t) = r@.main {
        assert(t.rows[s] == crate::tui::view::dash_row(b.repos[i]));
    }
}

/// Drawing the dashboard settles its selection and changes nothing else.
pub proof fn drawing_settles_the_dashboard(app: &mut App, now: u64, r: Screen)
    requires
        old(app).repos@.len() <= usize::MAX,
        old(app).mode != Mode::Detail,
        call_ensures(draw, (app, now), r),
    ensures
        final(app)@.detail == old(app)@.detail,
        final(app)@.status == old(app)@.status,
        final(app)@.search == old(app)@.search,
        ({
            let n = rows_above(old(app)@, old(app).repos@.len() as int);
            &&& n == 0 ==> final(app).dash_sel is None
            &&& n > 0 ==> final(app).dash_sel == Some(
                match old(app).dash_sel {
                    Some(s) => if s < n {
                        s
                    } else {
                        (n - 1) as usize
                    },
                    None => 0,
                },
            )
        }),
{
    let (a, b) = (old(app)@, final(app)@);
    places_are_those_of_rows(a);
    assert(a.mode == old(app).mode);
    assert(a.dash_sel == old(app).dash_sel && b.dash_sel == final(app).dash_sel);
}

/// A repository that is not there is not drawn, and nothing changes.
pub proof fn a_missing_repository_is_not_drawn(app: &mut App, now: u64, r: Screen, d: Detail)
    requires
        old(app).mode == Mode::Detail,
        old(app).detail == Some(d),
        d.repo_index >= old(app).repos@.len(),
        call_ensures(draw, (app, now), r),
    ensures
        final(app)@ == old(app)@,
        r@.main is Nothing,
{
    let a = old(app)@;
    assert(a.mode == old(app).mode && a.detail == Some(d@) && a.repos == old(app).repos@);
}

/// A selection within a list, or at its end where the list became shorter.
pub open spec fn within(before: Option<usize>, after: Option<usize>, n: nat) -> bool {
    match before {
        Some(s) => after == Some(
            if n == 0 || s < n {
                s
            } else {
                (n - 1) as usize
            },
        ),
        None => after is None,
    }
}

/// Drawing a repository brings the selection of the current tab within its
/// rows, and leaves the dashboard and the other tabs alone.
pub proof fn drawing_settles_the_tab(app: &mut App, now: u64, r: Screen, d: Detail)
    requires
        old(app).mode == Mode::Detail,
        old(app).detail == Some(d),
        d.repo_index < old(app).repos@.len(),
        call_ensures(draw, (app, now), r),
    ensures
        final(app).dash_sel == old(app).dash_sel,
        final(app).detail matches Some(e) && {
            &&& e.tab == d.tab && e.repo_index == d.repo_index
            &&& d.tab == Tab::Changes ==> (d.changes matches Some(v) ==> within(
                d.changes_sel,
                e.changes_sel,
                v@.len(),
            ))
            &&& d.tab != Tab::Changes ==> e.changes_sel == d.changes_sel
            &&& d.tab == Tab::History ==> (d.commits matches Some(v) ==> within(
                d.commits_sel,
                e.commits_sel,
                v@.len(),
            ))
            &&& d.tab != Tab::History ==> e.commits_sel == d.commits_sel
            &&& d.tab == Tab::Branches ==> (d.branches matches Some(v) ==> within(
                d.branches_sel,
                e.branches_sel,
                v@.len(),
            ))
            &&& d.tab != Tab::Branches ==> e.branches_sel == d.branches_sel
            &&& d.tab == Tab::Stashes ==> (d.stashes matches Some(v) ==> within(
                d.stashes_sel,
                e.stashes_sel,
                v@.len(),
            ))
            &&& d.tab != Tab::Stashes ==> e.stashes_sel == d.stashes_sel
        },
{
    let (a, b) = (old(app)@, final(app)@);
    assert(a.mode == old(app).mode && a.detail == Some(d@) && a.repos == old(app).repos@);
    assert(a.dash_sel == old(app).dash_sel && b.dash_sel == final(app).dash_sel);
    assert(b.detail is Some <==> final(app).detail is Some);
    let e = final(app).detail.unwrap();
    assert(b.detail == Some(e@));
    assert(e@ == d@.tab_bounded());
    assert(e@.tab == e.tab && e@.repo_index == e.repo_index);
    assert(e@.changes_sel == e.changes_sel && e@.commits_sel == e.commits_sel);
    assert(e@.branches_sel == e.branches_sel && e@.stashes_sel == e.stashes_sel);
}

/// The help tells the keys that work on repositories.
pub proof fn the_help_tells_the_keys(r: Vec<Vec<Span>>)
    requires
        call_ensures(draw_help, (), r),
    ensures
        ({
            let p = lines_view(r@);
            &&& p.len() == 24
            &&& p[0][0].text == " GitAtlas — keybindings "@
            &&& p[2][0].text == "Dashboard"@
            &&& p[3][0].text == "  ↑/k, ↓/j       move selection"@
            &&& p[4][0].text == "  g / G          jump to top / bottom"@
            &&& p[5][0].text == "  /              incremental search"@
            &&& p[6][0].text == "  a              clear health filter (all)"@
            &&& p[7][0].text == "  c/d/v/e        filter clean / dirty / diverged / error"@
            &&& p[8][0].text == "  enter          open repo detail"@
            &&& p[9][0].text == "  f / p / P      fetch / pull (rebase) / push selected"@
            &&& p[10][0].text == "  F              fetch all repos (background)"@
            &&& p[11][0].text == "  U              pull --rebase all repos (background)"@
            &&& p[12][0].text == "  s              scan configured roots"@
            &&& p[13][0].text == "  R              refresh selected repo status"@
            &&& p[15][0].text == "Detail"@
            &&& p[16][0].text == "  ←/h, →/l       previous / next tab"@
            &&& p[17][0].text == "  1–5            jump to tab"@
            &&& p[18][0].text == "  ↑/k, ↓/j       move selection (or scroll README)"@
            &&& p[19][0].text == "  f / p / P      fetch / pull / push this repo"@
            &&& p[20][0].text == "  R              reload current tab"@
            &&& p[21][0].text == "  esc            back to dashboard"@
            &&& p[23][0].text == "  q              quit   ?  toggle help"@
        }),
{
}

/// A box in the middle of an area has as much space before it as behind it, up
/// to one cell, and at least two cells on each side where the area has them.
pub proof fn boxes_are_centered(width: u16, height: u16, area: Area, r: Area)
    requires
        call_ensures(centered, (width, height, area), r),
    ensures
        ({
            let left = r.x - area.x;
            let right = area.width - r.width - left;
            let above = r.y - area.y;
            let below = area.height - r.height - above;
            &&& 0 <= left <= right <= left + 1
            &&& 0 <= above <= below <= above + 1
            &&& area.width >= 4 ==> left >= 2
            &&& area.height >= 4 ==> above >= 2
            &&& width + 4 <= area.width ==> r.width == width
            &&& height + 4 <= area.height ==> r.height == height
            &&& width + 4 > area.width >= 4 ==> r.width == area.width - 4
            &&& height + 4 > area.height >= 4 ==> r.height == area.height - 4
        }),
{
}

} // verus!
