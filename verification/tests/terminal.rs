use gitatlas::git::operations::ProgressEvent;
use gitatlas::models::{BranchInfo, CommitInfo, FileChange, FileStatus, RefKind, RefLabel, RepoHealth, RepoInfo, StashEntry};
use gitatlas::style::{Color, Span, Style};
use gitatlas::tui::app::{
    Action, App, BulkOp, Level, Mode, SingleEvent, SingleOp, Tab, TabData, WorkerMsg,
};
use gitatlas::tui::format::{fmt_bytes, fmt_duration, spinner_frame};
use gitatlas::tui::keys::{bound, move_sel, nav_table, settle, Key, KeyPress};
use gitatlas::tui::view::{
    centered, draw, draw_help, single_progress_summary, Area, Body, Main, Screen, TableModel, Width,
};

fn repo(name: &str, health: RepoHealth) -> RepoInfo {
    RepoInfo {
        path: format!("/src/{}", name),
        name: name.to_string(),
        branch: "main".to_string(),
        ahead: 0,
        behind: 1,
        dirty_files: 0,
        stash_count: 0,
        health,
        last_checked: "now".to_string(),
        remote_url: None,
    }
}

fn three() -> App {
    App::new(vec![
        repo("alpha", RepoHealth::Clean),
        repo("Beta", RepoHealth::Dirty),
        repo("gamma", RepoHealth::Dirty),
    ])
}

fn press(app: &mut App, key: Key) -> Option<Action> {
    app.handle_key(KeyPress { key, ctrl: false }, 0)
}

fn type_char(app: &mut App, c: char) -> Option<Action> {
    press(app, Key::Char(c))
}

fn status(app: &App) -> (&str, Level) {
    let m = app.status.as_ref().expect("status");
    (m.text.as_str(), m.level)
}

fn line(spans: &[Span]) -> String {
    spans.iter().map(|s| s.text.as_str()).collect()
}

fn cells(row: &[Vec<Span>]) -> Vec<String> {
    row.iter().map(|c| line(c)).collect()
}

fn dashboard(screen: &Screen) -> &TableModel {
    match &screen.main {
        Main::Dashboard(t) => t,
        _ => panic!("no dashboard"),
    }
}

fn body(app: &mut App) -> Body {
    match draw(app, 0).main {
        Main::Detail(d) => d.body,
        _ => panic!("no detail"),
    }
}

#[test]
fn durations_are_short() {
    assert_eq!(fmt_duration(0), "0ms");
    assert_eq!(fmt_duration(999), "999ms");
    assert_eq!(fmt_duration(1000), "1.0s");
    assert_eq!(fmt_duration(59_999), "59.9s");
    assert_eq!(fmt_duration(60_000), "1m00s");
    assert_eq!(fmt_duration(3_725_000), "62m05s");
}

#[test]
fn the_spinner_turns() {
    let frames: Vec<char> = (0..11).map(|i| spinner_frame(i * 80 + 79)).collect();
    assert_eq!(frames.iter().collect::<String>(), "⠋⠙⠹⠸⠼⠴⠦⠧⠇⠏⠋");
}

fn float_bytes(n: usize) -> String {
    let (kb, mb, gb) = (1024usize, 1024 * 1024, 1024 * 1024 * 1024);
    if n >= gb {
        format!("{:.1} GB", n as f64 / gb as f64)
    } else if n >= mb {
        format!("{:.1} MB", n as f64 / mb as f64)
    } else if n >= kb {
        format!("{:.1} KB", n as f64 / kb as f64)
    } else {
        format!("{} B", n)
    }
}

#[test]
fn sizes_are_those_of_floating_point() {
    assert_eq!(fmt_bytes(1023), "1023 B");
    assert_eq!(fmt_bytes(1536), "1.5 KB");
    assert_eq!(fmt_bytes(1024 * 1024), "1.0 MB");
    assert_eq!(fmt_bytes(1024 * 1024 - 1), "1024.0 KB");
    assert_eq!(fmt_bytes(5 * 1024 * 1024 * 1024 + 512 * 1024 * 1024), "5.5 GB");
    for n in 0..70_000usize {
        assert_eq!(fmt_bytes(n), float_bytes(n));
    }
    let mut x: u64 = 88172645463325252;
    for i in 0..200_000u32 {
        x ^= x << 13;
        x ^= x >> 7;
        x ^= x << 17;
        let n = (x >> (i % 50)) as usize;
        assert_eq!(fmt_bytes(n), float_bytes(n), "{}", n);
    }
    for shift in 10..64u32 {
        for near in [0usize, 1, 2, 3] {
            let n = (1usize << shift).wrapping_add(near);
            assert_eq!(fmt_bytes(n), float_bytes(n));
            let below = (1usize << shift) - near;
            assert_eq!(fmt_bytes(below), float_bytes(below));
        }
    }
    for n in [usize::MAX, usize::MAX - 1024, usize::MAX / 2 + 1023, usize::MAX / 2 + 1025] {
        assert_eq!(fmt_bytes(n), float_bytes(n));
    }
    for quarter in 0..4000usize {
        let n = (1 << 30) + quarter * (1 << 30) / 20;
        assert_eq!(fmt_bytes(n), float_bytes(n));
    }
}

#[test]
fn tabs_follow_each_other() {
    let all = [Tab::Changes, Tab::History, Tab::Branches, Tab::Stashes, Tab::Readme];
    for (i, t) in all.iter().enumerate() {
        assert_eq!(t.index(), i);
        assert_eq!(Tab::at(i), *t);
        assert_eq!(t.next(), all[(i + 1) % 5]);
        assert_eq!(t.next().prev(), *t);
    }
    assert_eq!(Tab::Readme.title(), "README");
}

#[test]
fn selections_stay_in_the_list() {
    assert_eq!(move_sel(None, 0, 1), None);
    assert_eq!(move_sel(Some(3), 0, 1), None);
    assert_eq!(move_sel(None, 5, 1), Some(1));
    assert_eq!(move_sel(Some(0), 5, -1), Some(0));
    assert_eq!(move_sel(Some(4), 5, 10), Some(4));
    assert_eq!(move_sel(Some(9), 5, -1), Some(4));
    assert_eq!(nav_table(Key::Char('G'), Some(0), 3), Some(2));
    assert_eq!(nav_table(Key::Char('g'), Some(2), 3), Some(0));
    assert_eq!(nav_table(Key::Char('G'), Some(7), 0), Some(7));
    assert_eq!(nav_table(Key::PageDown, Some(1), 30), Some(11));
    assert_eq!(settle(Some(9), 3), Some(2));
    assert_eq!(settle(Some(1), 0), None);
    assert_eq!(settle(None, 3), Some(0));
}

#[test]
fn the_dashboard_is_filtered_and_searched() {
    let mut app = three();
    assert_eq!(app.filtered(), [0, 1, 2]);
    type_char(&mut app, 'd');
    assert_eq!(app.filtered(), [1, 2]);
    type_char(&mut app, '/');
    assert_eq!(app.mode, Mode::Search);
    for c in "BETAX".chars() {
        type_char(&mut app, c);
    }
    press(&mut app, Key::Backspace);
    assert_eq!(app.filtered(), [1]);
    press(&mut app, Key::Enter);
    assert_eq!((app.mode, app.search.as_str()), (Mode::Dashboard, "BETA"));
    type_char(&mut app, 'a');
    assert_eq!(app.filtered(), [1]);
    type_char(&mut app, '/');
    type_char(&mut app, 'x');
    press(&mut app, Key::Esc);
    assert_eq!((app.mode, app.search.as_str()), (Mode::Dashboard, ""));
    type_char(&mut app, 'e');
    assert!(app.filtered().is_empty());
    type_char(&mut app, 'v');
    type_char(&mut app, 'c');
    assert_eq!(app.filter_health, Some(RepoHealth::Clean));
}

#[test]
fn quitting_and_help() {
    let mut app = three();
    type_char(&mut app, '?');
    assert_eq!(app.mode, Mode::Help);
    type_char(&mut app, 'x');
    assert_eq!(app.mode, Mode::Help);
    type_char(&mut app, 'q');
    assert_eq!((app.mode, app.should_quit), (Mode::Dashboard, false));
    type_char(&mut app, 'q');
    assert!(app.should_quit);
    let mut app = three();
    app.mode = Mode::Search;
    app.handle_key(KeyPress { key: Key::Char('c'), ctrl: true }, 0);
    assert!(app.should_quit);
}

#[test]
fn a_repo_is_opened_and_its_tabs_loaded() {
    let mut app = three();
    press(&mut app, Key::Down);
    let action = press(&mut app, Key::Enter);
    assert!(matches!(&action, Some(Action::LoadTab { path, tab: Tab::Changes, limit: None })
        if path == "/src/Beta"));
    assert_eq!(app.mode, Mode::Detail);
    app.tab_loaded(TabData::Changes(Ok(vec![])), 0);
    assert!(type_char(&mut app, '1').is_none());
    assert!(matches!(type_char(&mut app, 'R'), Some(Action::LoadTab { tab: Tab::Changes, .. })));
    assert!(matches!(press(&mut app, Key::Left), Some(Action::LoadTab { tab: Tab::Readme, .. })));
    app.tab_loaded(TabData::Readme(Ok(None)), 0);
    assert_eq!(app.detail.as_ref().unwrap().readme.as_deref(), Some("(no README found)"));
    assert!(matches!(type_char(&mut app, '2'), Some(Action::LoadTab { tab: Tab::History, limit: Some(200), .. })));
    app.tab_loaded(TabData::Commits(Err("broken".to_string())), 0);
    assert_eq!(status(&app), ("broken", Level::Error));
    assert!(type_char(&mut app, '2').is_none());
    press(&mut app, Key::Esc);
    assert_eq!(app.mode, Mode::Dashboard);
}

#[test]
fn readmes_are_scrolled() {
    let mut app = three();
    press(&mut app, Key::Enter);
    type_char(&mut app, '5');
    app.tab_loaded(TabData::Readme(Err("denied".to_string())), 0);
    assert_eq!(app.detail.as_ref().unwrap().readme.as_deref(), Some("(error: denied)"));
    press(&mut app, Key::PageDown);
    type_char(&mut app, 'j');
    press(&mut app, Key::Up);
    assert_eq!(app.detail.as_ref().unwrap().readme_scroll, 10);
    type_char(&mut app, 'k');
    press(&mut app, Key::PageUp);
    assert_eq!(app.detail.as_ref().unwrap().readme_scroll, 0);
    press(&mut app, Key::Down);
    type_char(&mut app, 'R');
    assert_eq!(app.detail.as_ref().unwrap().readme_scroll, 0);
}

#[test]
fn rows_of_a_tab_are_selected() {
    let mut app = three();
    press(&mut app, Key::Enter);
    type_char(&mut app, '4');
    let stash = |i: usize| StashEntry { index: i, message: "m".to_string() };
    app.tab_loaded(TabData::Stashes(Ok(vec![stash(0), stash(1)])), 0);
    press(&mut app, Key::Down);
    press(&mut app, Key::Down);
    assert_eq!(app.detail.as_ref().unwrap().stashes_sel, Some(1));
}

#[test]
fn drawing_brings_the_selection_of_a_tab_within_its_rows() {
    let mut app = three();
    press(&mut app, Key::Enter);
    type_char(&mut app, '4');
    let sel = |app: &App| app.detail.as_ref().unwrap().stashes_sel;
    app.detail.as_mut().unwrap().stashes_sel = Some(5);
    draw(&mut app, 0);
    assert_eq!(sel(&app), Some(5));
    app.tab_loaded(TabData::Stashes(Ok(vec![])), 0);
    app.detail.as_mut().unwrap().stashes_sel = Some(5);
    draw(&mut app, 0);
    assert_eq!(sel(&app), Some(5));
    let stash = |i: usize| StashEntry { index: i, message: "m".to_string() };
    app.tab_loaded(TabData::Stashes(Ok(vec![stash(0), stash(1)])), 0);
    app.detail.as_mut().unwrap().stashes_sel = Some(5);
    app.detail.as_mut().unwrap().commits_sel = Some(7);
    let t = table(body(&mut app));
    assert_eq!(t.selected, Some(1));
    assert_eq!(sel(&app), Some(1));
    assert_eq!(app.detail.as_ref().unwrap().commits_sel, Some(7));
    press(&mut app, Key::Up);
    assert_eq!(sel(&app), Some(0));
    app.detail.as_mut().unwrap().stashes_sel = None;
    assert_eq!(table(body(&mut app)).selected, None);
    assert_eq!((bound(Some(2), 2), bound(Some(1), 2), bound(Some(9), 0)), (Some(1), Some(1), Some(9)));
}

#[test]
fn one_operation_runs_at_a_time() {
    let mut app = three();
    let action = type_char(&mut app, 'p');
    assert!(matches!(&action, Some(Action::Single { op: SingleOp::Pull, path }) if path == "/src/alpha"));
    assert_eq!(app.single.as_ref().unwrap().name, "alpha");
    assert!(type_char(&mut app, 'f').is_none());
    assert_eq!(status(&app), ("another operation is already running", Level::Warn));
    assert!(type_char(&mut app, 'F').is_none());
    assert_eq!(status(&app), ("another operation is already running", Level::Warn));
    assert_eq!(app.poll_millis(), 80);

    let mut app = three();
    let action = type_char(&mut app, 'U');
    match &action {
        Some(Action::Bulk { all: BulkOp::Pull, targets }) => assert_eq!(targets.len(), 3),
        _ => panic!(),
    }
    assert!(type_char(&mut app, 'P').is_none());
    assert_eq!(status(&app), ("bulk operation in progress", Level::Warn));
    assert!(type_char(&mut app, 'F').is_none());
    assert_eq!(status(&app), ("bulk operation already running", Level::Warn));

    let mut app = App::new(vec![]);
    assert!(type_char(&mut app, 'F').is_none());
    assert_eq!(status(&app), ("no repos (run scan first)", Level::Warn));
    assert!(type_char(&mut app, 'f').is_none());
    assert_eq!(app.poll_millis(), 200);
}

#[test]
fn operations_on_the_shown_repo() {
    let mut app = three();
    press(&mut app, Key::Enter);
    app.tab_loaded(TabData::Changes(Ok(vec![])), 0);
    let action = type_char(&mut app, 'P');
    assert!(matches!(&action, Some(Action::Single { op: SingleOp::Push, path }) if path == "/src/alpha"));
}

#[test]
fn progress_is_summed_up() {
    let mut app = three();
    app.handle_key(KeyPress { key: Key::Char('f'), ctrl: false }, 1000);
    let summary = |app: &App, now: u64| single_progress_summary(app.single.as_ref().unwrap(), now);
    assert_eq!(summary(&app, 1000), "⠋ alpha fetching • 0ms");
    app.drain_single(SingleEvent::Progress(ProgressEvent::Stage("fetching origin".to_string())), 0);
    app.drain_single(
        SingleEvent::Progress(ProgressEvent::Transfer {
            received_bytes: 2048,
            indexed_objects: 1,
            received_objects: 2,
            total_objects: 4,
        }),
        0,
    );
    app.drain_single(
        SingleEvent::Progress(ProgressEvent::PushTransfer { current: 1, total: 2, bytes: 10 }),
        0,
    );
    app.drain_single(SingleEvent::Progress(ProgressEvent::RebaseStep { current: 1, total: 3 }), 0);
    app.drain_single(SingleEvent::Progress(ProgressEvent::Sideband("hello".to_string())), 0);
    assert_eq!(
        summary(&app, 2500),
        "⠇ alpha fetching origin • 2.0 KB • 2/4 objects (indexed 1) • 1/2 objects • 10 B • rebase 1/3 • hello • 1.5s"
    );
    app.drain_single(SingleEvent::Progress(ProgressEvent::Tip("refs/x (new)".to_string())), 0);
    assert!(summary(&app, 2500).contains(" • refs/x (new) • "));
    let screen = draw(&mut app, 2500);
    assert_eq!(screen.status.style, Style::plain().fg(Color::Black).bg(Color::Yellow));
    assert!(screen.status.text.starts_with(" ⠇ alpha "));
}

#[test]
fn an_operation_ends() {
    let mut app = three();
    app.handle_key(KeyPress { key: Key::Char('P'), ctrl: false }, 1000);
    let mut fresh = repo("alpha", RepoHealth::Diverged);
    fresh.ahead = 4;
    let action = app.drain_single(SingleEvent::Done(Ok(fresh)), 63_000);
    assert!(matches!(action, Some(Action::SaveCache)));
    assert_eq!(status(&app), ("pushed alpha in 1m02s", Level::Success));
    assert_eq!(app.repos[0].ahead, 4);
    assert!(app.single.is_none());
    assert!(app.drain_single(SingleEvent::Disconnected, 0).is_none());

    type_char(&mut app, 'f');
    assert!(app.drain_single(SingleEvent::Done(Err("denied".to_string())), 0).is_none());
    assert_eq!(status(&app), ("alpha: denied", Level::Error));
    type_char(&mut app, 'f');
    app.drain_single(SingleEvent::Disconnected, 0);
    assert_eq!(status(&app), ("alpha: worker disconnected", Level::Error));
}

#[test]
fn a_bulk_operation_ends() {
    let done = |name: &str, error: Option<&str>| WorkerMsg::Done {
        path: format!("/src/{}", name),
        error: error.map(|e| e.to_string()),
        updated: repo(name, RepoHealth::Diverged),
    };
    let mut app = three();
    type_char(&mut app, 'F');
    app.drain_worker(WorkerMsg::Progress { name: "gamma".to_string() }, 0);
    app.drain_worker(done("gamma", None), 0);
    assert_eq!(draw(&mut app, 0).status.text, " fetch 1/3 gamma");
    assert_eq!(app.repos[2].health, RepoHealth::Diverged);
    let action = app.drain_worker(WorkerMsg::Finished, 0);
    assert!(matches!(action, Some(Action::SaveCache)));
    assert_eq!(status(&app), ("fetch all complete (3 repos)", Level::Success));

    type_char(&mut app, 'U');
    app.drain_worker(done("alpha", Some("no")), 0);
    app.drain_worker(WorkerMsg::Finished, 0);
    assert_eq!(status(&app), ("pull finished — 1/3 failed", Level::Warn));

    type_char(&mut app, 'U');
    app.drain_worker(WorkerMsg::Disconnected, 0);
    assert_eq!(status(&app), ("bulk worker disconnected", Level::Error));
    assert!(app.drain_worker(WorkerMsg::Finished, 0).is_none());
}

#[test]
fn messages_go_away() {
    let mut app = three();
    app.set_status("hi", Level::Info, 1000);
    app.tick(4999);
    assert_eq!(status(&app).0, "hi");
    let screen = draw(&mut app, 4999);
    assert_eq!((screen.status.text.as_str(), screen.status.style.fg), (" hi", Some(Color::Blue)));
    app.tick(5000);
    assert!(app.status.is_none());
    assert!(draw(&mut app, 5000).status.text.starts_with(" ↑/↓ move  enter open"));
}

#[test]
fn scans_and_refreshes() {
    let mut app = three();
    assert!(matches!(type_char(&mut app, 's'), Some(Action::ReadRoots)));
    assert!(app.run_scan(vec![], 0).is_none());
    assert_eq!(
        status(&app),
        ("no scan roots configured (use: gitatlas config roots add)", Level::Error)
    );
    let action = app.run_scan(vec!["/a".to_string()], 0);
    assert!(matches!(&action, Some(Action::Scan(v)) if v == &vec!["/a".to_string()]));
    assert_eq!(status(&app), ("scanning…", Level::Info));
    assert!(matches!(app.scanned(vec![repo("x", RepoHealth::Clean)], 0), Action::SaveCache));
    assert_eq!(status(&app), ("scanned 1 repos", Level::Success));
    assert_eq!(app.repos.len(), 1);
    assert!(matches!(type_char(&mut app, 'R'), Some(Action::Refresh(p)) if p == "/src/x"));
    app.refreshed(repo("x", RepoHealth::Error), 0);
    assert_eq!(app.repos[0].health, RepoHealth::Error);
    assert_eq!(status(&app), ("status refreshed", Level::Info));
}

#[test]
fn the_dashboard_is_drawn() {
    let mut app = three();
    app.dash_sel = Some(9);
    let screen = draw(&mut app, 0);
    assert_eq!(line(&screen.title), " GitAtlas   dashboard");
    assert_eq!(line(&screen.right), "all  3 repos  ? help");
    let t = dashboard(&screen);
    assert_eq!(t.title, " repositories ");
    assert_eq!(t.selected, Some(2));
    assert_eq!(app.dash_sel, Some(2));
    assert_eq!(line(&t.header), "NAMEBRANCHAHEADBEHINDDIRTYSTASHHEALTHPATH");
    assert_eq!(t.widths[0], Width::Length(28));
    assert_eq!(t.rows.len(), 3);
    assert_eq!(cells(&t.rows[1]), ["Beta", "main", "0", "1", "0", "0", "dirty", "/src/Beta"]);
    assert_eq!(t.rows[0][0][0].style, Style::plain().bold());
    assert_eq!(t.rows[1][0][0].style, Style::plain().bold().fg(Color::Yellow));
    assert_eq!(t.rows[1][2][0].style.fg, Some(Color::DarkGray));
    assert_eq!(t.rows[1][3][0].style.fg, Some(Color::Red));
    type_char(&mut app, 'e');
    let screen = draw(&mut app, 0);
    assert_eq!(dashboard(&screen).title, " repositories (filter: error) ");
    assert_eq!(line(&screen.right), "filter:error  0 repos  ? help");
    assert_eq!(app.dash_sel, None);
    assert!(screen.help.is_none());
    type_char(&mut app, '?');
    let screen = draw(&mut app, 0);
    assert_eq!(screen.help.unwrap().len(), draw_help().len());
}

#[test]
fn searches_are_shown() {
    let mut app = three();
    type_char(&mut app, '/');
    type_char(&mut app, 'a');
    let screen = draw(&mut app, 0);
    assert_eq!(line(&screen.title), " GitAtlas   search: a_");
    assert_eq!(screen.status.text, " type to filter   enter apply   esc cancel");
}

#[test]
fn a_repo_is_drawn_in_detail() {
    let mut app = three();
    press(&mut app, Key::Enter);
    let screen = draw(&mut app, 0);
    assert_eq!(line(&screen.title), " GitAtlas   repo: alpha");
    match screen.main {
        Main::Detail(d) => {
            assert_eq!(line(&d.summary[0]), "alpha  on main   ↑0 ↓1   dirty 0   stash 0   clean");
            assert_eq!(line(&d.summary[1]), "path:   /src/alpha");
            assert_eq!(d.summary[0][0].style.fg, Some(Color::Cyan));
            assert_eq!(d.tabs, ["Changes", "History", "Branches", "Stashes", "README"]);
            assert_eq!(d.selected_tab, 0);
            assert!(matches!(&d.body, Body::Remark { title, text }
                if title == " changes " && text == "loading…"));
        }
        _ => panic!(),
    }
    app.detail = None;
    assert!(matches!(draw(&mut app, 0).main, Main::Nothing));
}

fn table(b: Body) -> TableModel {
    match b {
        Body::Table(t) => t,
        Body::Remark { text, .. } => panic!("{}", text),
        Body::Page { text, .. } => panic!("{}", text),
    }
}

fn remark(b: Body) -> String {
    match b {
        Body::Remark { text, .. } => text,
        _ => panic!("no remark"),
    }
}

#[test]
fn tabs_are_drawn() {
    let mut app = three();
    press(&mut app, Key::Enter);
    app.tab_loaded(TabData::Changes(Ok(vec![])), 0);
    assert_eq!(remark(body(&mut app)), "(clean working tree)");
    let change = FileChange { path: "f".to_string(), status: FileStatus::Conflicted, staged: true };
    app.tab_loaded(TabData::Changes(Ok(vec![change])), 0);
    let t = table(body(&mut app));
    assert_eq!(cells(&t.rows[0]), ["staged", "U", "f"]);
    assert_eq!(t.rows[0][1][0].style, Style::plain().fg(Color::Red).bold());

    type_char(&mut app, '2');
    assert_eq!(remark(body(&mut app)), "loading…");
    let label = |name: &str, kind: RefKind| RefLabel { name: name.to_string(), kind };
    let commit = CommitInfo {
        oid: "0123456789".to_string(),
        short_oid: "0123456".to_string(),
        message: "first\nsecond".to_string(),
        author: "Ann".to_string(),
        author_email: "a@x".to_string(),
        date: "2023-11-14T22:13:20+00:00".to_string(),
        parents: vec![],
        refs: vec![
            label("main", RefKind::Head),
            label("dev", RefKind::Local),
            label("origin/x", RefKind::Remote),
            label("v1", RefKind::Tag),
        ],
    };
    app.tab_loaded(TabData::Commits(Ok(vec![commit])), 0);
    let t = table(body(&mut app));
    assert_eq!(
        cells(&t.rows[0]),
        ["0123456", "2023-11-14", "Ann", "HEAD→main,dev,r/origin/x,tag:v1", "first"]
    );

    type_char(&mut app, '3');
    app.tab_loaded(TabData::Branches(Ok(vec![])), 0);
    assert_eq!(remark(body(&mut app)), "(no branches)");
    let branch = |name: &str, is_head: bool, is_remote: bool| BranchInfo {
        name: name.to_string(),
        is_head,
        is_remote,
        upstream: if is_head { Some("up".to_string()) } else { None },
    };
    let all = vec![branch("m", true, false), branch("l", false, false), branch("r", false, true)];
    app.tab_loaded(TabData::Branches(Ok(all)), 0);
    let t = table(body(&mut app));
    assert_eq!(cells(&t.rows[0]), ["*", "HEAD", "m", "up"]);
    assert_eq!(cells(&t.rows[1]), [" ", "local", "l", ""]);
    assert_eq!(cells(&t.rows[2]), [" ", "remote", "r", ""]);
    assert_eq!(t.rows[0][2][0].style, Style::plain().fg(Color::Green).bold());

    type_char(&mut app, '4');
    app.tab_loaded(TabData::Stashes(Ok(vec![])), 0);
    assert_eq!(remark(body(&mut app)), "(no stashes)");
    let stash = StashEntry { index: 7, message: "WIP".to_string() };
    app.tab_loaded(TabData::Stashes(Ok(vec![stash])), 0);
    assert_eq!(cells(&table(body(&mut app)).rows[0]), ["stash@{7}", "WIP"]);

    type_char(&mut app, '5');
    assert!(matches!(body(&mut app), Body::Page { text, .. } if text == "loading…"));
    app.tab_loaded(TabData::Readme(Ok(Some(String::new()))), 0);
    assert!(matches!(body(&mut app), Body::Page { text, scroll: 0, .. } if text == "(README is empty)"));
}

#[test]
fn boxes_are_centered() {
    let area = |x: u16, y: u16, width: u16, height: u16| Area { x, y, width, height };
    assert_eq!(centered(60, 24, area(0, 0, 100, 40)), area(20, 8, 60, 24));
    assert_eq!(centered(60, 24, area(2, 3, 30, 10)), area(4, 5, 26, 6));
    assert_eq!(centered(60, 24, area(0, 0, 3, 2)), area(1, 1, 0, 0));
}
