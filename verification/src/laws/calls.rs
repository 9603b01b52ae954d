//! What single calls do to the states that they are given, and what they give
//! back.
use vstd::prelude::*;
use vstd::string::*;

use crate::git::operations::{fetch_repo, fetch_repo_with_progress, pull_rebase_repo,
    pull_rebase_repo_with_progress, push_repo, push_repo_with_progress, Goal, RemoteReply,
    RemoteRequest, RemoteStep, RemoteTask, Turn};
use crate::handlers;
use crate::handlers::{command_start, dispatch, filter_cache, move_after, Reply, Task};
use crate::laws::interface::{in_row, places_are_those_of_rows, rows_above};
use crate::models::RepoInfo;
use crate::report::says_view;
use crate::text::texts;
use crate::tui::app::{action_view, elapsed, Action, App, BulkOp, Detail, Level, Mode, SingleEvent,
    SingleOp, Tab, TabData, WorkerMsg};
use crate::tui::keys::{bound, move_sel, nav_table, settle, Key, KeyPress};
use ssh2_config::SshConfig;

verus! {

// ── Remotes ──────────────────────────────

/// A fetch starts at its repository with the list of its remotes, and is a
/// fetch, watched or not.
pub proof fn a_fetch_is_started(
    path: &str,
    watched: bool,
    r: (RemoteTask, Turn),
    s: (RemoteTask, Turn),
)
    requires
        call_ensures(fetch_repo, (path,), r),
        call_ensures(fetch_repo_with_progress, (path, watched), s),
    ensures
        r.0.goal == Goal::Fetch && r.0.path@ == path@ && !r.0.watched,
        s.0.goal == Goal::Fetch && s.0.path@ == path@ && s.0.watched == watched,
        r.0.next_remote == 0 && r.0.picked == 0 && r.0.picks == 0 && r.0.remotes@.len() == 0,
        r.1.step matches RemoteStep::Ask(RemoteRequest::ListRemotes(p)) && p@ == path@,
        s.1.step matches RemoteStep::Ask(RemoteRequest::ListRemotes(p)) && p@ == path@,
{
    assert(r.0@.goal == r.0.goal && r.0@.path == r.0.path@ && r.0@.watched == r.0.watched);
    assert(s.0@.goal == s.0.goal && s.0@.path == s.0.path@ && s.0@.watched == s.0.watched);
    assert(r.1@.step == r.1.step@ && s.1@.step == s.1.step@);
    assert(r.0@.next_remote == r.0.next_remote && r.0@.picked == r.0.picked);
    assert(r.0@.picks == r.0.picks && r.0@.remotes.len() == r.0.remotes@.len());
}

/// A pull starts at its repository with the list of its remotes, and is a
/// pull, watched or not.
pub proof fn a_pull_is_started(
    path: &str,
    watched: bool,
    r: (RemoteTask, Turn),
    s: (RemoteTask, Turn),
)
    requires
        call_ensures(pull_rebase_repo, (path,), r),
        call_ensures(pull_rebase_repo_with_progress, (path, watched), s),
    ensures
        r.0.goal == Goal::Pull && r.0.path@ == path@ && !r.0.watched,
        s.0.goal == Goal::Pull && s.0.path@ == path@ && s.0.watched == watched,
        r.0.next_remote == 0 && r.0.picked == 0 && r.0.picks == 0 && r.0.remotes@.len() == 0,
        r.1.step matches RemoteStep::Ask(RemoteRequest::ListRemotes(p)) && p@ == path@,
        s.1.step matches RemoteStep::Ask(RemoteRequest::ListRemotes(p)) && p@ == path@,
{
    assert(r.0@.goal == r.0.goal && r.0@.path == r.0.path@ && r.0@.watched == r.0.watched);
    assert(s.0@.goal == s.0.goal && s.0@.path == s.0.path@ && s.0@.watched == s.0.watched);
    assert(r.1@.step == r.1.step@ && s.1@.step == s.1.step@);
    assert(r.0@.next_remote == r.0.next_remote && r.0@.picked == r.0.picked);
    assert(r.0@.picks == r.0.picks && r.0@.remotes.len() == r.0.remotes@.len());
}

/// A push starts at its repository with its HEAD, and is a push, watched or
/// not.
pub proof fn a_push_is_started(
    path: &str,
    watched: bool,
    r: (RemoteTask, Turn),
    s: (RemoteTask, Turn),
)
    requires
        call_ensures(push_repo, (path,), r),
        call_ensures(push_repo_with_progress, (path, watched), s),
    ensures
        r.0.goal == Goal::Push && r.0.path@ == path@ && !r.0.watched,
        s.0.goal == Goal::Push && s.0.path@ == path@ && s.0.watched == watched,
        r.0.next_remote == 0 && r.0.picked == 0 && r.0.picks == 0 && r.0.remotes@.len() == 0,
        r.1.step matches RemoteStep::Ask(RemoteRequest::ReadHead(p)) && p@ == path@,
        s.1.step matches RemoteStep::Ask(RemoteRequest::ReadHead(p)) && p@ == path@,
{
    assert(r.0@.goal == r.0.goal && r.0@.path == r.0.path@ && r.0@.watched == r.0.watched);
    assert(s.0@.goal == s.0.goal && s.0@.path == s.0.path@ && s.0@.watched == s.0.watched);
    assert(r.1@.step == r.1.step@ && s.1@.step == s.1.step@);
    assert(r.0@.next_remote == r.0.next_remote && r.0@.picked == r.0.picked);
    assert(r.0@.picks == r.0.picks && r.0@.remotes.len() == r.0.remotes@.len());
}

/// A task goes on by one step of its model, and takes the replies that the
/// model takes.
pub proof fn a_task_goes_on(
    t: RemoteTask,
    reply: RemoteReply,
    config: Option<&SshConfig>,
    home: Option<&str>,
    r: (RemoteTask, Turn),
    taken: bool,
)
    requires
        t@.accepts(reply),
        call_ensures(RemoteTask::advance, (t, reply, config, home), r),
        call_ensures(RemoteTask::accepts, (&t, &reply), taken),
    ensures
        taken,
        r.0@ == t@.next(
            reply,
            config,
            match home {
                Some(h) => Some(h@),
                None => None,
            },
        ).0,
        r.1@ == t@.next(
            reply,
            config,
            match home {
                Some(h) => Some(h@),
                None => None,
            },
        ).1,
        r.0.goal == t.goal,
        r.0.path@ == t.path@,
{
    assert(r.0@.goal == r.0.goal && r.0@.path == r.0.path@);
    assert(t@.goal == t.goal && t@.path == t.path@);
}

// ── Commands ─────────────────────────────

/// A command starts and goes on as its model does.
pub proof fn a_command_goes_on(
    cli: crate::cli::Cli,
    home: Option<&str>,
    first: (Task, handlers::Turn),
    t: Task,
    reply: Reply,
    r: (Task, handlers::Turn),
)
    requires
        call_ensures(dispatch, (cli, home), first),
        handlers::accepted(t.wait@, reply),
        call_ensures(Task::advance, (t, reply, home), r),
    ensures
        ({
            let h = match home {
                Some(h) => Some(h@),
                None => None,
            };
            let m = command_start(cli.json, cli.command, h);
            let n = move_after(t.ctx.json, t.wait@, reply, h);
            &&& first.0.ctx.json == cli.json
            &&& first.0.wait@ == m.wait
            &&& says_view(first.1.says@) == m.says
            &&& first.1.step@ == m.step
            &&& r.0.ctx.json == t.ctx.json
            &&& r.0.wait@ == n.wait
            &&& says_view(r.1.says@) == n.says
            &&& r.1.step@ == n.step
        }),
{
}

/// A listing holds those repositories that were asked for, and no others.
pub proof fn a_listing_holds_what_was_asked_for(
    args: crate::cli::ListArgs,
    repos: Vec<RepoInfo>,
    r: Vec<RepoInfo>,
)
    requires
        call_ensures(filter_cache, (&args, repos), r),
    ensures
        forall|i: int|
            0 <= i < r@.len() ==> repos@.contains(#[trigger] r@[i]) && handlers::is_listed(
                args,
                r@[i],
            ),
        forall|k: int|
            0 <= k < repos@.len() && handlers::is_listed(args, #[trigger] repos@[k])
                ==> r@.contains(repos@[k]),
{
    let f = |x: RepoInfo| handlers::is_listed(args, x);
    assert(r@ == repos@.filter(f));
    assert forall|i: int| 0 <= i < r@.len() implies repos@.contains(#[trigger] r@[i])
        && handlers::is_listed(args, r@[i]) by {
        broadcast use vstd::seq_lib::group_filter_ensures;
        repos@.lemma_filter_contains_rev(f, r@[i]);
    }
    assert forall|k: int|
        0 <= k < repos@.len() && handlers::is_listed(
            args,
            #[trigger] repos@[k],
        ) implies r@.contains(repos@[k]) by {
        broadcast use vstd::seq_lib::group_filter_ensures;
        assert(f(repos@[k]));
    }
}

// ── The interface ────────────────────────

/// The rows of the dashboard are the repositories that are shown, in order.
pub proof fn the_rows_are_those_shown(app: App, r: Vec<usize>, s: int)
    requires
        app.repos@.len() <= usize::MAX,
        call_ensures(App::filtered, (&app,), r),
    ensures
        r@.len() == rows_above(app@, app.repos@.len() as int),
        0 <= s < r@.len() ==> in_row(app@, s, r@[s] as int),
{
    places_are_those_of_rows(app@);
}

/// The selected repository is the one in the selected row, and its path is
/// that of the repository.
pub proof fn the_selected_repository_is_in_its_row(
    app: App,
    r: Option<usize>,
    path: Option<String>,
)
    requires
        app.repos@.len() <= usize::MAX,
        call_ensures(App::selected, (&app,), r),
        call_ensures(App::selected_path, (&app,), path),
    ensures
        r is Some <==> path is Some,
        r matches Some(i) ==> {
            &&& app.dash_sel matches Some(s)
            &&& in_row(app@, s as int, i as int)
            &&& path.unwrap()@ == app.repos@[i as int].path@
        },
        r is None ==> app.dash_sel is None || app.dash_sel.unwrap() >= rows_above(
            app@,
            app.repos@.len() as int,
        ),
{
    let a = app@;
    places_are_those_of_rows(a);
    assert(a.dash_sel == app.dash_sel && a.repos == app.repos@);
    if let Some(s) = app.dash_sel {
        if s < a.filtered().len() {
            assert(in_row(a, s as int, a.filtered()[s as int] as int));
        }
    }
}

/// A key is handled by the part of the interface that is in front: the search,
/// the help, the open repository or the dashboard.
pub proof fn keys_go_to_the_front(
    app: &mut App,
    press: KeyPress,
    now: u64,
    r: Option<Action>,
)
    requires
        call_ensures(App::handle_key, (app, press, now), r),
    ensures
        ({
            let a = old(app)@;
            let quits = press.ctrl && press.key == Key::Char('c');
            &&& quits ==> final(app).should_quit && r is None
            &&& !quits && old(app).mode == Mode::Search ==> final(app)@ == a.search_key(press.key)
                && r is None
            &&& !quits && old(app).mode == Mode::Help ==> final(app)@ == a.help_key(press.key)
                && r is None
            &&& !quits && old(app).mode == Mode::Detail ==> (final(app)@, action_view(r))
                == a.detail_key(press.key, now)
            &&& !quits && old(app).mode == Mode::Dashboard ==> (final(app)@, action_view(r))
                == a.dashboard_key(press.key, now)
        }),
{
    assert(final(app)@.should_quit == final(app).should_quit);
    assert(old(app)@.mode == old(app).mode);
    assert(action_view(r) is None <==> r is None);
}

/// Each part handles its keys as its model does.
pub proof fn parts_handle_their_keys(
    a: &mut App,
    b: &mut App,
    c: &mut App,
    d: &mut App,
    key: Key,
    now: u64,
    r: Option<Action>,
    s: Option<Action>,
)
    requires
        call_ensures(App::handle_search_key, (a, key), ()),
        call_ensures(App::handle_help_key, (b, key), ()),
        call_ensures(App::handle_detail_key, (c, key, now), r),
        call_ensures(App::handle_dashboard_key, (d, key, now), s),
    ensures
        final(a)@ == old(a)@.search_key(key),
        final(b)@ == old(b)@.help_key(key),
        (final(c)@, action_view(r)) == old(c)@.detail_key(key, now),
        (final(d)@, action_view(s)) == old(d)@.dashboard_key(key, now),
{
}

/// What comes back from work is taken in as its model does.
pub proof fn news_are_taken_in(
    a: &mut App,
    msg: WorkerMsg,
    b: &mut App,
    ev: SingleEvent,
    c: &mut App,
    d: TabData,
    now: u64,
    r: Option<Action>,
    s: Option<Action>,
)
    requires
        call_ensures(App::drain_worker, (a, msg, now), r),
        call_ensures(App::drain_single, (b, ev, now), s),
        call_ensures(App::tab_loaded, (c, d, now), ()),
    ensures
        (final(a)@, action_view(r)) == old(a)@.after_message(msg, now),
        (final(b)@, action_view(s)) == old(b)@.after_event(ev, now),
        final(c)@ == old(c)@.tab_loaded(d, now),
{
}

/// Scans and refreshes are taken in, and what is known is saved.
pub proof fn scans_are_taken_in(
    a: &mut App,
    repos: Vec<RepoInfo>,
    b: &mut App,
    info: RepoInfo,
    now: u64,
    r: Action,
    s: Action,
)
    requires
        call_ensures(App::scanned, (a, repos, now), r),
        call_ensures(App::refreshed, (b, info, now), s),
    ensures
        r is SaveCache && s is SaveCache,
        final(a).repos@ == repos@,
        final(b).repos@.len() == old(b).repos@.len(),
        forall|i: int|
            0 <= i < old(b).repos@.len() && old(b).repos@[i].path@ != info.path@
                ==> #[trigger] final(b).repos@[i] == old(b).repos@[i],
        forall|i: int|
            0 <= i < old(b).repos@.len() && old(b).repos@[i].path@ == info.path@ && (forall|j: int|
                0 <= j < i ==> (#[trigger] old(b).repos@[j]).path@ != info.path@)
                ==> #[trigger] final(b).repos@[i] == info,
{
    assert(final(a)@.repos == final(a).repos@);
    assert(final(b)@.repos == final(b).repos@ && old(b)@.repos == old(b).repos@);
    let v = old(b).repos@;
    crate::cache::place_is_first(v, info.path@);
    if let Some(k) = crate::cache::place_of(v, info.path@) {
        assert forall|i: int|
            0 <= i < v.len() && v[i].path@ == info.path@ && (forall|j: int|
                0 <= j < i ==> (#[trigger] v[j]).path@
                    != info.path@) implies #[trigger] final(b).repos@[i] == info by {
            if k < i {
                assert(v[k].path@ == info.path@);
            }
            if i < k {
                assert(v[i].path@ != info.path@);
            }
        }
    }
}

/// Operations and scans are started as their models are.
pub proof fn work_is_started(
    a: &mut App,
    path: &str,
    op: SingleOp,
    b: &mut App,
    bulk: BulkOp,
    c: &mut App,
    roots: Vec<String>,
    now: u64,
    r: Option<Action>,
    s: Option<Action>,
    t: Option<Action>,
)
    requires
        call_ensures(App::start_single, (a, path, op, now), r),
        call_ensures(App::start_bulk, (b, bulk, now), s),
        call_ensures(App::run_scan, (c, roots, now), t),
    ensures
        (final(a)@, action_view(r)) == old(a)@.starting_single(path@, op, now),
        (final(b)@, action_view(s)) == old(b)@.starting_bulk(bulk, now),
        (final(c)@, action_view(t)) == old(c)@.scanning(texts(roots@), now),
{
}

/// A message is shown until its time is over, and nothing else changes.
pub proof fn a_message_is_shown_for_a_while(
    a: &mut App,
    text: &str,
    level: Level,
    b: &mut App,
    now: u64,
)
    requires
        call_ensures(App::set_status, (a, text, level, now), ()),
        call_ensures(App::tick, (b, now), ()),
    ensures
        final(a).status matches Some(m) && m.text@ == text@ && m.level == level && m.set_at == now,
        final(a).repos@ == old(a).repos@ && final(a).mode == old(a).mode,
        final(b).repos@ == old(b).repos@ && final(b).mode == old(b).mode,
        old(b).status is None ==> final(b).status is None,
{
    assert(final(a)@.status is Some);
    assert(final(a)@.repos == final(a).repos@ && old(a)@.repos == old(a).repos@);
    assert(final(b)@.repos == final(b).repos@ && old(b)@.repos == old(b).repos@);
    assert(final(a)@.mode == final(a).mode && old(a)@.mode == old(a).mode);
    assert(final(b)@.mode == final(b).mode && old(b)@.mode == old(b).mode);
    assert(final(b)@.status is None <==> final(b).status is None);
    assert(old(b)@.status is None <==> old(b).status is None);
}

/// While something runs the screen is drawn more often.
pub proof fn running_work_is_watched(app: App, r: u64)
    requires
        call_ensures(App::poll_millis, (&app,), r),
    ensures
        app.single is Some || app.bulk is Some ==> r == 80,
        app.single is None && app.bulk is None ==> r == 200,
{
    assert(app@.single is Some <==> app.single is Some);
    assert(app@.bulk is Some <==> app.bulk is Some);
}

/// The time that has passed, none where the clock went back.
pub proof fn time_passes(since: u64, now: u64, r: u64)
    requires
        call_ensures(elapsed, (since, now), r),
    ensures
        since <= now ==> r == now - since,
        since > now ==> r == 0,
{
}

/// The tabs stand in a row and follow each other round.
pub proof fn tabs_stand_in_a_row(t: Tab, i: usize, title: &'static str, next: Tab, prev: Tab, n: usize, at: Tab)
    requires
        i < 5,
        call_ensures(Tab::title, (&t,), title),
        call_ensures(Tab::index, (&t,), n),
        call_ensures(Tab::next, (&t,), next),
        call_ensures(Tab::prev, (&t,), prev),
        call_ensures(Tab::at, (i,), at),
    ensures
        match t {
            Tab::Changes => title@ == "Changes"@ && n == 0 && next == Tab::History && prev
                == Tab::Readme,
            Tab::History => title@ == "History"@ && n == 1 && next == Tab::Branches && prev
                == Tab::Changes,
            Tab::Branches => title@ == "Branches"@ && n == 2 && next == Tab::Stashes && prev
                == Tab::History,
            Tab::Stashes => title@ == "Stashes"@ && n == 3 && next == Tab::Readme && prev
                == Tab::Branches,
            Tab::Readme => title@ == "README"@ && n == 4 && next == Tab::Changes && prev
                == Tab::Stashes,
        },
        n == i <==> at == t,
{
}

/// Operations have words: for what runs, and for what is done.
pub proof fn operations_have_words(
    op: SingleOp,
    runs: &'static str,
    done: &'static str,
    bulk: BulkOp,
    verb: &'static str,
)
    requires
        call_ensures(SingleOp::progress_verb, (&op,), runs),
        call_ensures(SingleOp::success_verb, (&op,), done),
        call_ensures(BulkOp::verb, (&bulk,), verb),
    ensures
        match op {
            SingleOp::Fetch => runs@ == "fetching"@ && done@ == "fetched"@,
            SingleOp::Pull => runs@ == "pulling"@ && done@ == "pulled"@,
            SingleOp::Push => runs@ == "pushing"@ && done@ == "pushed"@,
        },
        match bulk {
            BulkOp::Fetch => verb@ == "fetch"@,
            BulkOp::Pull => verb@ == "pull"@,
        },
{
}

/// A selection moves by the rows that it is told, and stays in the list.
pub proof fn selections_move(sel: Option<usize>, len: usize, delta: i32, r: Option<usize>)
    requires
        call_ensures(move_sel, (sel, len, delta), r),
    ensures
        ({
            let from = match sel {
                Some(s) => s as int,
                None => 0,
            };
            &&& len == 0 ==> r is None
            &&& len > 0 && 0 <= from + delta < len ==> r == Some((from + delta) as usize)
            &&& len > 0 && from + delta < 0 ==> r == Some(0usize)
            &&& len > 0 && from + delta >= len ==> r == Some((len - 1) as usize)
        }),
{
}

/// Keys move a selection: by a row, by a page of ten, or to an end.
pub proof fn keys_move_selections(
    key: Key,
    sel: Option<usize>,
    len: usize,
    r: Option<usize>,
    up: Option<usize>,
    down: Option<usize>,
    page_up: Option<usize>,
    page_down: Option<usize>,
)
    requires
        call_ensures(nav_table, (key, sel, len), r),
        call_ensures(move_sel, (sel, len, -1i32), up),
        call_ensures(move_sel, (sel, len, 1i32), down),
        call_ensures(move_sel, (sel, len, -10i32), page_up),
        call_ensures(move_sel, (sel, len, 10i32), page_down),
    ensures
        key == Key::Up || key == Key::Char('k') ==> r == up,
        key == Key::Down || key == Key::Char('j') ==> r == down,
        key == Key::PageUp ==> r == page_up,
        key == Key::PageDown ==> r == page_down,
        key == Key::Char('g') && len > 0 ==> r == Some(0usize),
        key == Key::Char('G') && len > 0 ==> r == Some((len - 1) as usize),
{
}

/// A selection is brought back into a list that became shorter.
pub proof fn selections_are_brought_back(
    sel: Option<usize>,
    len: usize,
    r: Option<usize>,
    s: Option<usize>,
)
    requires
        call_ensures(bound, (sel, len), r),
        call_ensures(settle, (sel, len), s),
    ensures
        sel matches Some(k) ==> {
            &&& k < len ==> r == sel && s == sel
            &&& k >= len > 0 ==> r == Some((len - 1) as usize) && s == r
        },
        sel is None ==> r is None,
        sel is None && len > 0 ==> s == Some(0usize),
        len == 0 ==> s is None && r == sel,
{
}

/// A repository is opened on its changes, with nothing loaded and the first
/// row selected.
pub proof fn a_repository_is_opened_fresh(i: usize, r: Detail)
    requires
        call_ensures(Detail::new, (i,), r),
    ensures
        r.repo_index == i,
        r.tab == Tab::Changes,
        r.changes is None && r.commits is None && r.branches is None,
        r.stashes is None && r.readme is None && r.readme_scroll == 0,
        r.changes_sel == Some(0usize) && r.commits_sel == Some(0usize),
        r.branches_sel == Some(0usize) && r.stashes_sel == Some(0usize),
{
    let v = r@;
    assert(v.changes is None <==> r.changes is None);
    assert(v.commits is None <==> r.commits is None);
    assert(v.branches is None <==> r.branches is None);
    assert(v.stashes is None <==> r.stashes is None);
    assert(v.readme is None <==> r.readme is None);
    assert(v.repo_index == r.repo_index && v.tab == r.tab && v.readme_scroll == r.readme_scroll);
    assert(v.changes_sel == r.changes_sel && v.commits_sel == r.commits_sel);
    assert(v.branches_sel == r.branches_sel && v.stashes_sel == r.stashes_sel);
}

/// A tab has loaded where its part is there.
pub proof fn tabs_have_loaded(d: Detail, t: Tab, loaded: bool)
    requires
        call_ensures(Detail::has_loaded, (&d, t), loaded),
    ensures
        loaded == match t {
            Tab::Changes => d.changes is Some,
            Tab::History => d.commits is Some,
            Tab::Branches => d.branches is Some,
            Tab::Stashes => d.stashes is Some,
            Tab::Readme => d.readme is Some,
        },
{
    let v = d@;
    assert(v.changes is Some <==> d.changes is Some);
    assert(v.commits is Some <==> d.commits is Some);
    assert(v.branches is Some <==> d.branches is Some);
    assert(v.stashes is Some <==> d.stashes is Some);
    assert(v.readme is Some <==> d.readme is Some);
}

/// Only the current tab is loaded again; the others keep what they have.
pub proof fn the_current_tab_is_forgotten(e: &mut Detail, t: Tab, before: bool, after: bool)
    requires
        call_ensures(Detail::invalidate, (e,), ()),
        call_ensures(Detail::has_loaded, (&*old(e), t), before),
        call_ensures(Detail::has_loaded, (&*final(e), t), after),
    ensures
        t == old(e).tab ==> !after,
        t != old(e).tab ==> after == before,
        final(e).repo_index == old(e).repo_index && final(e).tab == old(e).tab,
{
    let (a, b) = (old(e)@, final(e)@);
    assert(a.repo_index == old(e).repo_index && b.repo_index == final(e).repo_index);
    assert(a.tab == old(e).tab && b.tab == final(e).tab);
}

/// The state is what it holds.
pub proof fn the_state_is_what_it_holds(app: App)
    ensures
        app@.repos == app.repos@,
        app@.filter_health == app.filter_health,
        app@.search == app.search@,
        app@.dash_sel == app.dash_sel,
        app@.mode == app.mode && app@.prev_mode == app.prev_mode,
        app@.should_quit == app.should_quit,
        app@.detail is Some <==> app.detail is Some,
        app.detail matches Some(d) ==> app@.detail == Some(d@) && d@.repo_index == d.repo_index
            && d@.tab == d.tab,
        app@.status is Some <==> app.status is Some,
        app.status matches Some(m) ==> app@.status.unwrap().text == m.text@
            && app@.status.unwrap().level == m.level,
        app@.bulk is Some <==> app.bulk is Some,
        app.bulk matches Some(b) ==> app@.bulk.unwrap().op == b.op && app@.bulk.unwrap().done
            == b.done && app@.bulk.unwrap().total == b.total && app@.bulk.unwrap().errors
            == b.errors,
        app@.single is Some <==> app.single is Some,
        app.single matches Some(s) ==> app@.single.unwrap().op == s.op && app@.single.unwrap().path
            == s.path@ && app@.single.unwrap().name == s.name@,
{
}

} // verus!
