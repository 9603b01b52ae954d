//! What the keys and events of the terminal interface do, and what it draws.
use vstd::prelude::*;
use vstd::string::*;

use crate::cache::place_is_first;
use crate::git::operations::EventView;
use crate::models::{RepoHealth, RepoInfo};
use crate::paths::file_name_of;
use crate::text::{decimal_of, has_text, lowercase, texts};
use crate::tui::app::{passing, Action, ActionView, AppView, BulkOp, BulkView, DetailView, Level,
    Mode, ProgressView, SingleEvent, SingleOp, SingleView, StatusView, Tab, TabData, WorkerMsg};
use crate::tui::format::duration_text;
use crate::tui::keys::{Key, KeyPress};
use crate::tui::view::drawn;

verus! {

// ── The rows of the dashboard ────────────

/// A repository passes the health filter, and the search text occurs in its
/// name, its branch or its path, whatever the case.
pub open spec fn is_shown(a: AppView, r: RepoInfo) -> bool {
    &&& a.filter_health matches Some(h) ==> r.health == h
    &&& lowercase(a.search).len() > 0 ==> {
        ||| has_text(lowercase(r.name@), lowercase(a.search))
        ||| has_text(lowercase(r.branch@), lowercase(a.search))
        ||| has_text(lowercase(r.path@), lowercase(a.search))
    }
}

/// How many of the first `n` repositories are shown.
pub open spec fn rows_above(a: AppView, n: int) -> int
    decreases n,
{
    if n <= 0 {
        0
    } else if is_shown(a, a.repos[n - 1]) {
        rows_above(a, n - 1) + 1
    } else {
        rows_above(a, n - 1)
    }
}

/// The repository at place `i` is drawn in row `s`: it is shown, and so are as
/// many before it as there are rows above.
pub open spec fn in_row(a: AppView, s: int, i: int) -> bool {
    &&& 0 <= i < a.repos.len()
    &&& is_shown(a, a.repos[i])
    &&& rows_above(a, i) == s
}

proof fn rows_of_prefix(a: AppView, n: int)
    requires
        0 <= n <= a.repos.len() <= usize::MAX,
    ensures
        ({
            let v = passing(a.repos.take(n), a.filter_health, lowercase(a.search));
            &&& v.len() == rows_above(a, n)
            &&& forall|s: int| 0 <= s < v.len() ==> in_row(a, s, #[trigger] v[s] as int)
            &&& forall|i: int|
                0 <= i < n && is_shown(a, a.repos[i]) ==> {
                    let s = #[trigger] rows_above(a, i);
                    0 <= s < v.len() && v[s] == i
                }
        }),
    decreases n,
{
    if n > 0 {
        rows_of_prefix(a, n - 1);
        assert(a.repos.take(n).drop_last() =~= a.repos.take(n - 1));
        assert(a.repos.take(n).last() == a.repos[n - 1]);
        let before = passing(a.repos.take(n - 1), a.filter_health, lowercase(a.search));
        let v = passing(a.repos.take(n), a.filter_health, lowercase(a.search));
        assert forall|s: int| 0 <= s < v.len() implies in_row(a, s, #[trigger] v[s] as int) by {
            if s < before.len() {
                assert(v[s] == before[s]);
            }
        }
        assert forall|i: int| 0 <= i < n && is_shown(a, a.repos[i]) implies {
            let s = #[trigger] rows_above(a, i);
            0 <= s < v.len() && v[s] == i
        } by {
            if i < n - 1 {
                let s = rows_above(a, i);
                assert(before[s] == i);
            }
        }
    }
}

/// The places of the dashboard are those of its rows.
pub proof fn places_are_those_of_rows(a: AppView)
    requires
        a.repos.len() <= usize::MAX,
    ensures
        a.filtered().len() == rows_above(a, a.repos.len() as int),
        forall|s: int|
            0 <= s < a.filtered().len() ==> in_row(a, s, #[trigger] a.filtered()[s] as int),
        forall|i: int|
            0 <= i < a.repos.len() && is_shown(a, a.repos[i]) ==> {
                let s = #[trigger] rows_above(a, i);
                0 <= s < a.filtered().len() && a.filtered()[s] == i
            },
{
    assert(a.repos.take(a.repos.len() as int) =~= a.repos);
    rows_of_prefix(a, a.repos.len() as int);
}

/// In one row stands one repository.
pub proof fn a_row_holds_one_repo(a: AppView, s: int, i: int, j: int)
    requires
        a.repos.len() <= usize::MAX,
        in_row(a, s, i),
        in_row(a, s, j),
    ensures
        i == j,
{
    places_are_those_of_rows(a);
    assert(a.filtered()[rows_above(a, i)] == i);
    assert(a.filtered()[rows_above(a, j)] == j);
}

// ── Keys of the dashboard ────────────────

pub open spec fn typed(c: char) -> KeyPress {
    KeyPress { key: Key::Char(c), ctrl: false }
}

/// An operation on one repository has just started, and nothing else changed.
pub open spec fn runs(b: AppView, a: AppView, op: SingleOp, path: Seq<char>, now: u64) -> bool {
    b == AppView {
        single: Some(
            SingleView {
                op,
                name: match file_name_of(path) {
                    Some(n) => n,
                    None => path,
                },
                path,
                started: now,
                progress: ProgressView {
                    stage: None,
                    sideband: None,
                    tip: None,
                    transfer: None,
                    push: None,
                    rebase: None,
                },
            },
        ),
        ..a
    }
}

/// On the dashboard `f`, `p`, `P` and `R` fetch, pull, push and refresh the
/// repository in the selected row, and Enter opens it; while an operation is
/// running no other one starts.
pub proof fn keys_work_on_the_selected_row(a: AppView, s: usize, i: int, now: u64)
    requires
        a.mode == Mode::Dashboard,
        a.repos.len() <= usize::MAX,
        a.dash_sel == Some(s),
        in_row(a, s as int, i),
    ensures
        ({
            let path = a.repos[i].path@;
            let idle = a.single is None && a.bulk is None;
            let starts = |c: char, op: SingleOp|
                {
                    let (b, action) = a.pressed(typed(c), now);
                    &&& idle ==> action == Some(ActionView::Single { op, path }) && runs(
                        b,
                        a,
                        op,
                        path,
                        now,
                    )
                    &&& !idle ==> action is None && b == (AppView { status: b.status, ..a })
                };
            let (open, load) = a.pressed(KeyPress { key: Key::Enter, ctrl: false }, now);
            &&& starts('f', SingleOp::Fetch)
            &&& starts('p', SingleOp::Pull)
            &&& starts('P', SingleOp::Push)
            &&& a.pressed(typed('R'), now) == (a, Some(ActionView::Refresh(path)))
            &&& load == Some(
                ActionView::LoadTab { path, tab: Tab::Changes, limit: None },
            )
            &&& open.mode == Mode::Detail
            &&& open.detail matches Some(d)
            &&& d.repo_index == i
            &&& d.tab == Tab::Changes
            &&& open == (AppView { mode: open.mode, detail: open.detail, ..a })
        }),
{
    places_are_those_of_rows(a);
    assert(a.filtered()[rows_above(a, i)] == i);
}

/// The repository at place `i` is drawn in the selected row.
pub open spec fn in_selected_row(a: AppView, i: int) -> bool {
    a.dash_sel is Some && in_row(a, a.dash_sel.unwrap() as int, i)
}

/// Whatever key on the dashboard opens, refreshes or starts an operation on
/// one repository, that repository passes the filter and the search, and it
/// is the one in the selected row.
pub proof fn no_hidden_repo_is_touched(a: AppView, press: KeyPress, now: u64)
    requires
        a.mode == Mode::Dashboard,
        a.repos.len() <= usize::MAX,
    ensures
        ({
            let (b, action) = a.pressed(press, now);
            &&& action matches Some(ActionView::Single { op, path }) ==> exists|i: int| #[trigger]
                in_selected_row(a, i) && a.repos[i].path@ == path
            &&& action matches Some(ActionView::Refresh(path)) ==> exists|i: int| #[trigger]
                in_selected_row(a, i) && a.repos[i].path@ == path
            &&& action matches Some(ActionView::LoadTab { path, tab, limit }) ==> exists|i: int|
                #[trigger] in_selected_row(a, i) && a.repos[i].path@ == path
            &&& b.mode == Mode::Detail ==> b.detail is Some && in_selected_row(
                a,
                b.detail.unwrap().repo_index as int,
            )
        }),
{
    places_are_those_of_rows(a);
    if let Some(s) = a.dash_sel {
        if s < a.filtered().len() {
            let i = a.filtered()[s as int] as int;
            assert(in_selected_row(a, i));
        }
    }
}

/// Without a selected row no single repository is worked on.
pub proof fn without_a_row_nothing_is_done(a: AppView, now: u64)
    requires
        a.mode == Mode::Dashboard,
        a.repos.len() <= usize::MAX,
        a.dash_sel is None || a.dash_sel.unwrap() >= rows_above(a, a.repos.len() as int),
    ensures
        a.pressed(typed('f'), now) == (a, None::<ActionView>),
        a.pressed(typed('p'), now) == (a, None::<ActionView>),
        a.pressed(typed('P'), now) == (a, None::<ActionView>),
        a.pressed(typed('R'), now) == (a, None::<ActionView>),
        a.pressed(KeyPress { key: Key::Enter, ctrl: false }, now) == (a, None::<ActionView>),
{
    places_are_those_of_rows(a);
}

/// `F` fetches and `U` pulls all repositories, whatever the filter hides, each
/// under its name and at its path; `s` scans.
pub proof fn keys_work_on_all(a: AppView, now: u64)
    requires
        a.mode == Mode::Dashboard,
        a.repos.len() <= usize::MAX,
    ensures
        ({
            let idle = a.single is None && a.bulk is None && a.repos.len() > 0;
            let starts = |c: char, op: BulkOp|
                {
                    let (b, action) = a.pressed(typed(c), now);
                    &&& !idle ==> action is None && b.bulk == a.bulk && b.single == a.single
                    &&& idle ==> {
                        &&& action matches Some(ActionView::Bulk { all, targets })
                        &&& all == op
                        &&& targets.len() == a.repos.len()
                        &&& forall|i: int|
                            0 <= i < a.repos.len() ==> (#[trigger] targets[i]) == (
                                a.repos[i].name@,
                                a.repos[i].path@,
                            )
                        &&& b == (AppView {
                            bulk: Some(
                                BulkView {
                                    op,
                                    total: a.repos.len() as usize,
                                    done: 0,
                                    current: None,
                                    errors: 0,
                                },
                            ),
                            ..a
                        })
                    }
                };
            &&& starts('F', BulkOp::Fetch)
            &&& starts('U', BulkOp::Pull)
            &&& a.pressed(typed('s'), now) == (a, Some(ActionView::ReadRoots))
        }),
{
}

/// `a` shows all repositories, `c`, `d`, `v` and `e` only those that are
/// clean, dirty, diverged or in error; `q` quits, `?` opens help, and `/`
/// starts a new search. Nothing else changes.
pub proof fn keys_filter_the_dashboard(a: AppView, now: u64)
    requires
        a.mode == Mode::Dashboard,
    ensures
        ({
            let leads = |c: char, b: AppView| a.pressed(typed(c), now) == (b, None::<ActionView>);
            &&& leads('a', AppView { filter_health: None, ..a })
            &&& leads('c', AppView { filter_health: Some(RepoHealth::Clean), ..a })
            &&& leads('d', AppView { filter_health: Some(RepoHealth::Dirty), ..a })
            &&& leads('v', AppView { filter_health: Some(RepoHealth::Diverged), ..a })
            &&& leads('e', AppView { filter_health: Some(RepoHealth::Error), ..a })
            &&& leads('q', AppView { should_quit: true, ..a })
            &&& leads('?', AppView { mode: Mode::Help, prev_mode: Mode::Dashboard, ..a })
            &&& leads(
                '/',
                AppView { mode: Mode::Search, prev_mode: Mode::Dashboard, search: seq![], ..a },
            )
        }),
{
}

/// A row reached by moving from another: some rows further, and kept within
/// the list.
pub open spec fn reached(from: Option<usize>, by: int, rows: int, to: Option<usize>) -> bool {
    let start: int = match from {
        Some(s) => s as int,
        None => 0,
    };
    &&& rows == 0 ==> to is None
    &&& rows > 0 ==> {
        &&& to is Some
        &&& 0 <= to.unwrap() < rows
        &&& 0 <= start + by < rows ==> to == Some((start + by) as usize)
        &&& start + by < 0 ==> to == Some(0usize)
        &&& start + by >= rows ==> to == Some((rows - 1) as usize)
    }
}

/// The arrows, `j` and `k` move the selection of the dashboard by a row and
/// the page keys by ten; `g` and `G` lead to the first and the last row.
pub proof fn keys_move_on_the_dashboard(a: AppView, now: u64)
    requires
        a.mode == Mode::Dashboard,
        a.repos.len() <= usize::MAX,
    ensures
        ({
            let rows = rows_above(a, a.repos.len() as int);
            let moves = |k: Key, by: int|
                {
                    let (b, action) = a.pressed(KeyPress { key: k, ctrl: false }, now);
                    &&& action is None
                    &&& b == (AppView { dash_sel: b.dash_sel, ..a })
                    &&& reached(a.dash_sel, by, rows, b.dash_sel)
                };
            let top = a.pressed(typed('g'), now);
            let bottom = a.pressed(typed('G'), now);
            &&& moves(Key::Up, -1) && moves(Key::Char('k'), -1)
            &&& moves(Key::Down, 1) && moves(Key::Char('j'), 1)
            &&& moves(Key::PageUp, -10) && moves(Key::PageDown, 10)
            &&& rows > 0 ==> top == (AppView { dash_sel: Some(0), ..a }, None::<ActionView>)
            &&& rows > 0 ==> bottom == (
                AppView { dash_sel: Some((rows - 1) as usize), ..a },
                None::<ActionView>,
            )
            &&& rows == 0 ==> top == (a, None::<ActionView>) && bottom == (a, None::<ActionView>)
        }),
{
    places_are_those_of_rows(a);
    rows_are_few(a, a.repos.len() as int);
}

proof fn rows_are_few(a: AppView, n: int)
    requires
        0 <= n <= a.repos.len(),
    ensures
        0 <= rows_above(a, n) <= n,
    decreases n,
{
    if n > 0 {
        rows_are_few(a, n - 1);
    }
}

/// Other keys do nothing on the dashboard.
pub proof fn other_keys_do_nothing(a: AppView, c: char, now: u64)
    requires
        a.mode == Mode::Dashboard,
        !seq![
            'q',
            '?',
            '/',
            'a',
            'c',
            'd',
            'v',
            'e',
            'f',
            'p',
            'P',
            'F',
            'U',
            'R',
            's',
            'j',
            'k',
            'g',
            'G',
        ].contains(c),
    ensures
        a.pressed(typed(c), now) == (a, None::<ActionView>),
        a.pressed(KeyPress { key: Key::Esc, ctrl: false }, now) == (a, None::<ActionView>),
        a.pressed(KeyPress { key: Key::Left, ctrl: false }, now) == (a, None::<ActionView>),
        a.pressed(KeyPress { key: Key::Right, ctrl: false }, now) == (a, None::<ActionView>),
        a.pressed(KeyPress { key: Key::Backspace, ctrl: false }, now) == (a, None::<ActionView>),
        a.pressed(KeyPress { key: Key::Other, ctrl: false }, now) == (a, None::<ActionView>),
{
    let v = seq![
        'q',
        '?',
        '/',
        'a',
        'c',
        'd',
        'v',
        'e',
        'f',
        'p',
        'P',
        'F',
        'U',
        'R',
        's',
        'j',
        'k',
        'g',
        'G',
    ];
    assert(v[0] == 'q' && v[1] == '?' && v[2] == '/' && v[3] == 'a' && v[4] == 'c' && v[5] == 'd'
        && v[6] == 'v' && v[7] == 'e' && v[8] == 'f' && v[9] == 'p' && v[10] == 'P' && v[11] == 'F'
        && v[12] == 'U' && v[13] == 'R' && v[14] == 's' && v[15] == 'j' && v[16] == 'k' && v[17]
        == 'g' && v[18] == 'G');
}

// ── Keys of search and help ──────────────

/// What is typed into a search comes at its end, Backspace takes the last
/// character away, Enter keeps the search and Escape drops it; both lead back.
pub proof fn a_search_is_typed(a: AppView, c: char, now: u64)
    requires
        a.mode == Mode::Search,
    ensures
        ({
            let leads = |k: Key, b: AppView|
                a.pressed(KeyPress { key: k, ctrl: false }, now) == (b, None::<ActionView>);
            &&& leads(Key::Char(c), AppView { search: a.search.push(c), ..a })
            &&& a.search.len() > 0 ==> leads(
                Key::Backspace,
                AppView { search: a.search.take(a.search.len() - 1), ..a },
            )
            &&& a.search.len() == 0 ==> leads(Key::Backspace, a)
            &&& leads(Key::Enter, AppView { mode: a.prev_mode, ..a })
            &&& leads(Key::Esc, AppView { mode: a.prev_mode, search: seq![], ..a })
        }),
{
    if a.search.len() > 0 {
        assert(a.search.take(a.search.len() - 1) =~= a.search.drop_last());
    }
}

/// Help is left with Escape, `?` or `q`, and nothing else does anything.
pub proof fn help_is_left(a: AppView, press: KeyPress, now: u64)
    requires
        a.mode == Mode::Help,
        !(press.key == Key::Char('c') && press.ctrl),
    ensures
        press.key == Key::Esc || press.key == Key::Char('?') || press.key == Key::Char('q')
            ==> a.pressed(press, now) == (AppView { mode: a.prev_mode, ..a }, None::<ActionView>),
        press.key != Key::Esc && press.key != Key::Char('?') && press.key != Key::Char('q')
            ==> a.pressed(press, now) == (a, None::<ActionView>),
{
}

// ── Keys of a repository ─────────────────

/// The tabs, in their order.
pub open spec fn tabs() -> Seq<Tab> {
    seq![Tab::Changes, Tab::History, Tab::Branches, Tab::Stashes, Tab::Readme]
}

/// What a tab shows is there.
pub open spec fn is_there(d: DetailView, tab: Tab) -> bool {
    match tab {
        Tab::Changes => d.changes is Some,
        Tab::History => d.commits is Some,
        Tab::Branches => d.branches is Some,
        Tab::Stashes => d.stashes is Some,
        Tab::Readme => d.readme is Some,
    }
}

/// The tab is shown of the repository that is open, and loaded where it is not
/// there yet: two hundred commits of a history, and all of the others.
pub open spec fn leads_to_tab(
    a: AppView,
    d: DetailView,
    to: (AppView, Option<ActionView>),
    tab: Tab,
) -> bool {
    &&& to.0 == AppView { detail: Some(DetailView { tab, ..d }), ..a }
    &&& to.1 == if d.repo_index < a.repos.len() && !is_there(d, tab) {
        Some(
            ActionView::LoadTab {
                path: a.repos[d.repo_index as int].path@,
                tab,
                limit: if tab == Tab::History {
                    Some(200usize)
                } else {
                    None
                },
            },
        )
    } else {
        None
    }
}

/// The digits lead to the tabs in their order, and the arrows, `l` and `h` to
/// the next and the last one, round and round.
pub proof fn keys_lead_to_tabs(a: AppView, d: DetailView, k: int, now: u64)
    requires
        a.mode == Mode::Detail,
        a.detail == Some(d),
        0 <= k < 5,
        tabs()[k] == d.tab,
    ensures
        ({
            let to = |key: Key| a.pressed(KeyPress { key, ctrl: false }, now);
            &&& leads_to_tab(a, d, to(Key::Char('1')), Tab::Changes)
            &&& leads_to_tab(a, d, to(Key::Char('2')), Tab::History)
            &&& leads_to_tab(a, d, to(Key::Char('3')), Tab::Branches)
            &&& leads_to_tab(a, d, to(Key::Char('4')), Tab::Stashes)
            &&& leads_to_tab(a, d, to(Key::Char('5')), Tab::Readme)
            &&& leads_to_tab(a, d, to(Key::Right), tabs()[(k + 1) % 5])
            &&& leads_to_tab(a, d, to(Key::Char('l')), tabs()[(k + 1) % 5])
            &&& leads_to_tab(a, d, to(Key::Left), tabs()[(k + 4) % 5])
            &&& leads_to_tab(a, d, to(Key::Char('h')), tabs()[(k + 4) % 5])
        }),
{
}

/// `f`, `p` and `P` fetch, pull and push the repository that is open, `R`
/// loads its current tab again and no other, Escape leads back to the
/// dashboard, `q` quits and `?` opens help.
pub proof fn keys_work_on_the_open_repo(a: AppView, d: DetailView, now: u64)
    requires
        a.mode == Mode::Detail,
        a.detail == Some(d),
        d.repo_index < a.repos.len(),
    ensures
        ({
            let path = a.repos[d.repo_index as int].path@;
            let idle = a.single is None && a.bulk is None;
            let starts = |c: char, op: SingleOp|
                {
                    let (b, action) = a.pressed(typed(c), now);
                    &&& idle ==> action == Some(ActionView::Single { op, path }) && runs(
                        b,
                        a,
                        op,
                        path,
                        now,
                    )
                    &&& !idle ==> action is None && b == (AppView { status: b.status, ..a })
                };
            let (again, load) = a.pressed(typed('R'), now);
            &&& starts('f', SingleOp::Fetch)
            &&& starts('p', SingleOp::Pull)
            &&& starts('P', SingleOp::Push)
            &&& load == Some(
                ActionView::LoadTab {
                    path,
                    tab: d.tab,
                    limit: if d.tab == Tab::History {
                        Some(200usize)
                    } else {
                        None
                    },
                },
            )
            &&& again.detail matches Some(n)
            &&& again == (AppView { detail: Some(n), ..a })
            &&& n.repo_index == d.repo_index && n.tab == d.tab
            &&& forall|t: Tab| #[trigger] is_there(n, t) <==> is_there(d, t) && t != d.tab
            &&& d.tab != Tab::Changes ==> n.changes == d.changes
            &&& d.tab != Tab::History ==> n.commits == d.commits
            &&& d.tab != Tab::Branches ==> n.branches == d.branches
            &&& d.tab != Tab::Stashes ==> n.stashes == d.stashes
            &&& d.tab != Tab::Readme ==> n.readme == d.readme
            &&& a.pressed(KeyPress { key: Key::Esc, ctrl: false }, now) == (
                AppView { mode: Mode::Dashboard, ..a },
                None::<ActionView>,
            )
            &&& a.pressed(typed('q'), now) == (
                AppView { should_quit: true, ..a },
                None::<ActionView>,
            )
            &&& a.pressed(typed('?'), now) == (
                AppView { mode: Mode::Help, prev_mode: Mode::Detail, ..a },
                None::<ActionView>,
            )
        }),
{
}

/// The selection of the current tab.
pub open spec fn tab_sel(d: DetailView) -> Option<usize> {
    match d.tab {
        Tab::Changes => d.changes_sel,
        Tab::History => d.commits_sel,
        Tab::Branches => d.branches_sel,
        _ => d.stashes_sel,
    }
}

/// How many rows the current tab has.
pub open spec fn tab_rows(d: DetailView) -> int {
    match d.tab {
        Tab::Changes => if d.changes is Some {
            d.changes.unwrap().len() as int
        } else {
            0
        },
        Tab::History => if d.commits is Some {
            d.commits.unwrap().len() as int
        } else {
            0
        },
        Tab::Branches => if d.branches is Some {
            d.branches.unwrap().len() as int
        } else {
            0
        },
        _ => if d.stashes is Some {
            d.stashes.unwrap().len() as int
        } else {
            0
        },
    }
}

/// Two open repositories differ at most in the selection of the current tab.
pub open spec fn only_moved(n: DetailView, d: DetailView) -> bool {
    match d.tab {
        Tab::Changes => n == DetailView { changes_sel: n.changes_sel, ..d },
        Tab::History => n == DetailView { commits_sel: n.commits_sel, ..d },
        Tab::Branches => n == DetailView { branches_sel: n.branches_sel, ..d },
        Tab::Stashes => n == DetailView { stashes_sel: n.stashes_sel, ..d },
        Tab::Readme => n == DetailView { readme_scroll: n.readme_scroll, ..d },
    }
}

/// By how many rows a key moves.
pub open spec fn moves_by(k: Key) -> Option<int> {
    match k {
        Key::Up => Some(-1int),
        Key::Down => Some(1),
        Key::PageUp => Some(-10),
        Key::PageDown => Some(10),
        Key::Char(c) => if c == 'k' {
            Some(-1)
        } else if c == 'j' {
            Some(1)
        } else {
            None
        },
        _ => None,
    }
}

/// The arrows, `j` and `k` and the page keys move the selection of the current
/// tab, and of no other, within its rows.
pub proof fn keys_move_in_the_tab(a: AppView, d: DetailView, k: Key, now: u64)
    requires
        a.mode == Mode::Detail,
        a.detail == Some(d),
        d.tab != Tab::Readme,
        0 <= tab_rows(d) <= usize::MAX,
        moves_by(k) is Some,
    ensures
        ({
            let (b, action) = a.pressed(KeyPress { key: k, ctrl: false }, now);
            &&& action is None
            &&& b.detail matches Some(n)
            &&& b == (AppView { detail: Some(n), ..a })
            &&& only_moved(n, d)
            &&& reached(tab_sel(d), moves_by(k).unwrap(), tab_rows(d), tab_sel(n))
        }),
{
}

/// `g` and `G` lead to the first and the last row of the current tab.
pub proof fn keys_jump_in_the_tab(a: AppView, d: DetailView, c: char, now: u64)
    requires
        a.mode == Mode::Detail,
        a.detail == Some(d),
        d.tab != Tab::Readme,
        0 <= tab_rows(d) <= usize::MAX,
        c == 'g' || c == 'G',
    ensures
        ({
            let (b, action) = a.pressed(typed(c), now);
            &&& action is None
            &&& b.detail matches Some(n)
            &&& b == (AppView { detail: Some(n), ..a })
            &&& only_moved(n, d)
            &&& tab_rows(d) == 0 ==> tab_sel(n) == tab_sel(d)
            &&& tab_rows(d) > 0 ==> tab_sel(n) == Some(
                if c == 'g' {
                    0usize
                } else {
                    (tab_rows(d) - 1) as usize
                },
            )
        }),
{
}

/// The readme is scrolled by a line and by ten, not beyond its beginning, and
/// `g` leads back there.
pub proof fn keys_scroll_the_readme(a: AppView, d: DetailView, now: u64)
    requires
        a.mode == Mode::Detail,
        a.detail == Some(d),
        d.tab == Tab::Readme,
    ensures
        ({
            let scrolls = |k: Key, by: int|
                {
                    let (b, action) = a.pressed(KeyPress { key: k, ctrl: false }, now);
                    let to: int = d.readme_scroll + by;
                    &&& action is None
                    &&& b == (AppView {
                        detail: Some(
                            DetailView {
                                readme_scroll: (if to < 0 {
                                    0
                                } else if to > u16::MAX {
                                    u16::MAX as int
                                } else {
                                    to
                                }) as u16,
                                ..d
                            },
                        ),
                        ..a
                    })
                };
            &&& scrolls(Key::Up, -1) && scrolls(Key::Char('k'), -1)
            &&& scrolls(Key::Down, 1) && scrolls(Key::Char('j'), 1)
            &&& scrolls(Key::PageUp, -10) && scrolls(Key::PageDown, 10)
            &&& a.pressed(typed('g'), now).0.detail == Some(DetailView { readme_scroll: 0, ..d })
        }),
{
}

// ── Events ───────────────────────────────

/// The interface starts on the dashboard, with the first repository selected
/// and nothing filtered, running or said.
pub proof fn the_interface_starts_on_the_dashboard(repos: Seq<RepoInfo>)
    ensures
        ({
            let a = AppView::fresh(repos);
            &&& a.repos == repos
            &&& a.mode == Mode::Dashboard
            &&& a.filter_health is None && a.search.len() == 0
            &&& a.dash_sel == if repos.len() > 0 {
                Some(0usize)
            } else {
                None
            }
            &&& a.single is None && a.bulk is None && a.status is None && a.detail is None
            &&& !a.should_quit
        }),
{
}

/// A message is shown with its level from the moment it is told.
pub open spec fn says(a: AppView, text: Seq<char>, level: Level, now: u64) -> bool {
    a.status == Some(StatusView { text, level, set_at: now })
}

/// `repos` with the first one at `path` made `info`; where there is none they
/// are the same.
pub open spec fn brought_up_to_date(
    before: Seq<RepoInfo>,
    path: Seq<char>,
    info: RepoInfo,
    after: Seq<RepoInfo>,
) -> bool {
    &&& (forall|i: int| 0 <= i < before.len() ==> (#[trigger] before[i]).path@ != path) ==> after
        == before
    &&& (exists|i: int| 0 <= i < before.len() && (#[trigger] before[i]).path@ == path) ==> exists|
        k: int,
    |
        {
            &&& 0 <= k < before.len()
            &&& (#[trigger] before[k]).path@ == path
            &&& forall|i: int| 0 <= i < k ==> (#[trigger] before[i]).path@ != path
            &&& after == before.update(k, info)
        }
}

/// An operation that is done is told with its name and its time, the state of
/// its repository is brought up to date, and what is known is kept; one that
/// failed is told with the reason, and nothing is kept. Either way it is over.
pub proof fn an_operation_ends(
    a: AppView,
    s: SingleView,
    info: RepoInfo,
    e: String,
    now: u64,
)
    requires
        a.single == Some(s),
    ensures
        ({
            let (done, keep) = a.after_event(SingleEvent::Done(Ok(info)), now);
            let (failed, none) = a.after_event(SingleEvent::Done(Err(e)), now);
            let (gone, nothing) = a.after_event(SingleEvent::Disconnected, now);
            let verb = match s.op {
                SingleOp::Fetch => "fetched"@,
                SingleOp::Pull => "pulled"@,
                SingleOp::Push => "pushed"@,
            };
            let took = if now >= s.started {
                (now - s.started) as nat
            } else {
                0
            };
            &&& keep == Some(ActionView::SaveCache)
            &&& brought_up_to_date(a.repos, s.path, info, done.repos)
            &&& says(
                done,
                verb + " "@ + s.name + " in "@ + duration_text(took),
                Level::Success,
                now,
            )
            &&& done == (AppView { repos: done.repos, status: done.status, single: None, ..a })
            &&& none is None
            &&& says(failed, s.name + ": "@ + e@, Level::Error, now)
            &&& failed == (AppView { status: failed.status, single: None, ..a })
            &&& nothing is None
            &&& says(gone, s.name + ": worker disconnected"@, Level::Error, now)
            &&& gone == (AppView { status: gone.status, single: None, ..a })
        }),
{
    place_is_first(a.repos, s.path);
}

/// Each kind of progress is remembered in its own place, the latest of each.
pub proof fn progress_is_remembered(a: AppView, s: SingleView, ev: SingleEvent, now: u64)
    requires
        a.single == Some(s),
        ev is Progress,
    ensures
        ({
            let (b, action) = a.after_event(ev, now);
            let p = s.progress;
            &&& ev matches SingleEvent::Progress(event)
            &&& action is None
            &&& b.single matches Some(t)
            &&& b == (AppView { single: Some(t), ..a })
            &&& t == (SingleView { progress: t.progress, ..s })
            &&& match event@ {
                EventView::Stage(x) => t.progress == (ProgressView { stage: Some(x), ..p }),
                EventView::Sideband(x) => t.progress == (ProgressView { sideband: Some(x), ..p }),
                EventView::Tip(x) => t.progress == (ProgressView { tip: Some(x), ..p }),
                EventView::Transfer {
                    received_bytes,
                    indexed_objects,
                    received_objects,
                    total_objects,
                } => t.progress == (ProgressView {
                    transfer: Some(
                        (received_bytes, indexed_objects, received_objects, total_objects),
                    ),
                    ..p
                }),
                EventView::PushTransfer { current, total, bytes } => t.progress == (ProgressView {
                    push: Some((current, total, bytes)),
                    ..p
                }),
                EventView::RebaseStep { current, total } => t.progress == (ProgressView {
                    rebase: Some((current, total)),
                    ..p
                }),
            }
        }),
{
}

/// An operation on all repositories counts each that is done and each that
/// failed, brings its state up to date, tells at the end how many failed, and
/// has what is known kept.
pub proof fn all_are_counted(
    a: AppView,
    b: BulkView,
    path: String,
    error: Option<String>,
    updated: RepoInfo,
    name: String,
    now: u64,
)
    requires
        a.bulk == Some(b),
        b.done < usize::MAX,
        b.errors < usize::MAX,
    ensures
        ({
            let (one, none) = a.after_message(WorkerMsg::Done { path, error, updated }, now);
            let (current, nothing) = a.after_message(WorkerMsg::Progress { name }, now);
            let (end, keep) = a.after_message(WorkerMsg::Finished, now);
            let (gone, no) = a.after_message(WorkerMsg::Disconnected, now);
            let verb = match b.op {
                BulkOp::Fetch => "fetch"@,
                BulkOp::Pull => "pull"@,
            };
            &&& none is None && nothing is None && no is None
            &&& keep == Some(ActionView::SaveCache)
            &&& one.bulk == Some(
                BulkView {
                    done: (b.done + 1) as usize,
                    errors: (b.errors + if error is Some {
                        1int
                    } else {
                        0
                    }) as usize,
                    ..b
                },
            )
            &&& brought_up_to_date(a.repos, path@, updated, one.repos)
            &&& one == (AppView { repos: one.repos, bulk: one.bulk, ..a })
            &&& current == (AppView { bulk: Some(BulkView { current: Some(name@), ..b }), ..a })
            &&& end == (AppView { bulk: None, status: end.status, ..a })
            &&& b.errors == 0 ==> says(
                end,
                verb + " all complete ("@ + decimal_of(b.total as nat) + " repos)"@,
                Level::Success,
                now,
            )
            &&& b.errors > 0 ==> says(
                end,
                verb + " finished — "@ + decimal_of(b.errors as nat) + "/"@ + decimal_of(
                    b.total as nat,
                ) + " failed"@,
                Level::Warn,
                now,
            )
            &&& gone == (AppView { bulk: None, status: gone.status, ..a })
            &&& says(gone, "bulk worker disconnected"@, Level::Error, now)
        }),
{
    place_is_first(a.repos, path@);
}

/// Events of an operation that is not running change nothing.
pub proof fn stray_events_do_nothing(a: AppView, msg: WorkerMsg, ev: SingleEvent, now: u64)
    ensures
        a.bulk is None ==> a.after_message(msg, now) == (a, None::<ActionView>),
        a.single is None ==> a.after_event(ev, now) == (a, None::<ActionView>),
{
}

/// Starting something while something else is running only says so.
pub proof fn what_runs_is_said(
    a: AppView,
    path: Seq<char>,
    op: SingleOp,
    all: BulkOp,
    now: u64,
)
    ensures
        ({
            let (s, x) = a.starting_single(path, op, now);
            let (b, y) = a.starting_bulk(all, now);
            let busy = "another operation is already running"@;
            &&& a.single is Some ==> says(s, busy, Level::Warn, now) && x is None
            &&& a.single is None && a.bulk is Some ==> says(
                s,
                "bulk operation in progress"@,
                Level::Warn,
                now,
            ) && x is None
            &&& a.bulk is Some ==> says(b, "bulk operation already running"@, Level::Warn, now)
                && y is None
            &&& a.bulk is None && a.single is Some ==> says(b, busy, Level::Warn, now) && y is None
            &&& a.bulk is None && a.single is None && a.repos.len() == 0 ==> says(
                b,
                "no repos (run scan first)"@,
                Level::Warn,
                now,
            ) && y is None
            &&& s.repos == a.repos && b.repos == a.repos
        }),
{
}

/// What was loaded for a tab is shown in that tab and in no other; what could
/// not be loaded is told, and shows as nothing.
pub proof fn what_is_loaded_is_shown(a: AppView, d: DetailView, data: TabData, now: u64)
    requires
        a.detail == Some(d),
    ensures
        ({
            let b = a.tab_loaded(data, now);
            &&& b.detail matches Some(n)
            &&& b == (AppView { detail: Some(n), status: b.status, ..a })
            &&& match data {
                TabData::Changes(Ok(v)) => n == (DetailView { changes: Some(v@), ..d }),
                TabData::Commits(Ok(v)) => n == (DetailView { commits: Some(v@), ..d }),
                TabData::Branches(Ok(v)) => n == (DetailView { branches: Some(v@), ..d }),
                TabData::Stashes(Ok(v)) => n == (DetailView { stashes: Some(v@), ..d }),
                TabData::Readme(Ok(Some(s))) => n == (DetailView { readme: Some(s@), ..d }),
                TabData::Readme(Ok(None)) => n == (DetailView {
                    readme: Some("(no README found)"@),
                    ..d
                }),
                TabData::Readme(Err(e)) => n == (DetailView {
                    readme: Some("(error: "@ + e@ + ")"@),
                    ..d
                }) && b.status == a.status,
                TabData::Changes(Err(e)) => n == (DetailView { changes: Some(seq![]), ..d })
                    && says(b, e@, Level::Error, now),
                TabData::Commits(Err(e)) => n == (DetailView { commits: Some(seq![]), ..d })
                    && says(b, e@, Level::Error, now),
                TabData::Branches(Err(e)) => n == (DetailView { branches: Some(seq![]), ..d })
                    && says(b, e@, Level::Error, now),
                TabData::Stashes(Err(e)) => n == (DetailView { stashes: Some(seq![]), ..d })
                    && says(b, e@, Level::Error, now),
            }
            &&& match data {
                TabData::Changes(Ok(_))
                | TabData::Commits(Ok(_))
                | TabData::Branches(Ok(_))
                | TabData::Stashes(Ok(_))
                | TabData::Readme(Ok(_)) => b.status == a.status,
                _ => true,
            }
        }),
{
}

/// A scan goes through the roots that are given, what it finds replaces what
/// was known, and how many that are is told; without roots there is no scan.
pub proof fn a_scan_replaces_what_is_known(
    a: AppView,
    roots: Seq<Seq<char>>,
    repos: Seq<RepoInfo>,
    now: u64,
)
    ensures
        ({
            let (b, action) = a.scanning(roots, now);
            let c = a.scanned(repos, now);
            &&& roots.len() > 0 ==> action == Some(ActionView::Scan(roots)) && says(
                b,
                "scanning…"@,
                Level::Info,
                now,
            )
            &&& roots.len() == 0 ==> action is None && says(
                b,
                "no scan roots configured (use: gitatlas config roots add)"@,
                Level::Error,
                now,
            )
            &&& b == (AppView { status: b.status, ..a })
            &&& c == (AppView { repos, status: c.status, ..a })
            &&& says(c, "scanned "@ + decimal_of(repos.len()) + " repos"@, Level::Success, now)
        }),
{
}

/// A repository whose state was read again is brought up to date, and no
/// other.
pub proof fn a_refresh_updates_one(a: AppView, info: RepoInfo, now: u64)
    ensures
        ({
            let b = a.refreshed(info, now);
            &&& brought_up_to_date(a.repos, info.path@, info, b.repos)
            &&& says(b, "status refreshed"@, Level::Info, now)
            &&& b == (AppView { repos: b.repos, status: b.status, ..a })
        }),
{
    place_is_first(a.repos, info.path@);
}

/// A message goes away four seconds after it was told, and nothing else
/// changes with time.
pub proof fn messages_go_away(a: AppView, now: u64)
    ensures
        ({
            let b = a.ticked(now);
            &&& b == (AppView { status: b.status, ..a })
            &&& a.status matches Some(m) ==> b.status == if now >= m.set_at + 4000 {
                None
            } else {
                Some(m)
            }
            &&& a.status is None ==> b.status is None
        }),
{
}

/// What the interface asks for is what is stated of it.
pub proof fn actions_are_what_they_say(x: Action)
    ensures
        match x {
            Action::LoadTab { path, tab, limit } => x@ == (ActionView::LoadTab {
                path: path@,
                tab,
                limit,
            }),
            Action::Single { op, path } => x@ == (ActionView::Single { op, path: path@ }),
            Action::Bulk { all, targets } => {
                &&& x@ matches ActionView::Bulk { all: op, targets: v }
                &&& op == all
                &&& v.len() == targets@.len()
                &&& forall|i: int|
                    0 <= i < v.len() ==> (#[trigger] v[i]) == (
                        targets@[i].name@,
                        targets@[i].path@,
                    )
            },
            Action::Refresh(p) => x@ == ActionView::Refresh(p@),
            Action::ReadRoots => x@ is ReadRoots,
            Action::Scan(v) => x@ == ActionView::Scan(texts(v@)),
            Action::SaveCache => x@ is SaveCache,
        },
{
}

} // verus!
