use gitatlas::cache::Config;
use gitatlas::cli::{
    BranchAction, BranchCmd, BulkArgs, Cli, Command, CommitArgs, ConfigAction, ConfigCmd, DiffArgs,
    ListArgs, LogArgs, ProfileArgs, RemoteAction, RemoteCmd, RepoArg, RootsAction, ShowArgs,
    SquashArgs, StageArgs, StashAction, StashCmd,
};
use gitatlas::error::AppError;
use gitatlas::handlers::{
    dispatch, filter_cache, refresh_cache_for, Reply, Request, Step, Task, Turn,
};
use gitatlas::models::{CommitFileChange, GitProfile, RepoHealth, RepoInfo};
use gitatlas::output::Printed;
use gitatlas::report::{data_text, notice_text, op_name, BulkResult, Data, Notice, Op, Say};
use gitatlas::resolver::ResolveReply;

fn repo(name: &str, path: &str) -> RepoInfo {
    RepoInfo {
        path: path.to_string(),
        name: name.to_string(),
        branch: "main".to_string(),
        ahead: 0,
        behind: 0,
        dirty_files: 0,
        stash_count: 0,
        health: RepoHealth::Clean,
        last_checked: "now".to_string(),
        remote_url: None,
    }
}

fn own(v: &[&str]) -> Vec<String> {
    v.iter().map(|s| s.to_string()).collect()
}

fn start(json: bool, command: Command) -> (Task, Turn) {
    dispatch(Cli { json, command }, Some("/home/me"))
}

fn step(t: Task, reply: Reply) -> (Task, Turn) {
    assert!(t.accepts(&reply));
    t.advance(reply, Some("/home/me"))
}

/// Finds the repository "r", which is at "/r".
fn at_r(json: bool, command: Command) -> (Task, Turn) {
    let (t, turn) = start(json, command);
    assert!(matches!(turn.step, Step::Ask(Request::Resolve(_))));
    step(t, Reply::Resolve(ResolveReply::Cache(vec![repo("r", "/r")])))
}

fn lines(printed: Vec<Printed>) -> Vec<String> {
    printed
        .iter()
        .map(|p| match p {
            Printed::Line(l) => l.iter().map(|s| s.text.as_str()).collect::<String>(),
            Printed::Table { rows, .. } => format!("table of {}", rows.len()),
            Printed::Raw(s) => format!("raw {}", s),
        })
        .collect()
}

fn said(turn: &Turn) -> Vec<String> {
    turn.says
        .iter()
        .flat_map(|s| match s {
            Say::Notice(n) => {
                vec![format!("! {}", notice_text(n).iter().map(|s| s.text.as_str()).collect::<String>())]
            }
            Say::Text(d) => lines(data_text(d)),
            Say::Json(_) => vec!["json".to_string()],
            Say::SaveCache(v) => vec![format!("save {}", v.len())],
            Say::SaveConfig(v) => vec![format!("config {}", v.join(","))],
        })
        .collect()
}

fn arg() -> RepoArg {
    RepoArg { repo: "r".to_string() }
}

fn ends(turn: &Turn) -> bool {
    matches!(turn.step, Step::Done)
}

fn git_error(s: &str) -> Reply {
    Reply::Failed(AppError::Git(s.to_string()))
}

fn list_args(health: Option<&str>, search: Option<&str>, refresh: bool) -> ListArgs {
    ListArgs {
        health: health.map(|s| s.to_string()),
        search: search.map(|s| s.to_string()),
        refresh,
    }
}

#[test]
fn a_scan_is_kept_and_shown() {
    let (t, turn) = start(false, Command::Scan);
    assert!(matches!(turn.step, Step::Ask(Request::ReadRoots)));
    let config = Config { scan_roots: own(&["/a", "/b"]) };
    let (t, turn) = step(t, Reply::Roots { config, home: None, default_is_dir: false });
    assert_eq!(said(&turn), ["! Scanning /a, /b..."]);
    assert!(matches!(&turn.step, Step::Ask(Request::Scan(v)) if v == &own(&["/a", "/b"])));
    let (t, turn) = step(t, Reply::Repos(vec![repo("r", "/r")]));
    assert_eq!(
        said(&turn),
        ["save 1", "table of 1", "", "1 total — 1 clean, 0 dirty, 0 diverged, 0 error"]
    );
    assert!(ends(&turn));
    assert!(!t.accepts(&Reply::Done));
}

#[test]
fn a_scan_needs_roots() {
    let (t, _) = start(true, Command::Scan);
    let config = Config { scan_roots: vec![] };
    let (_, turn) =
        step(t, Reply::Roots { config, home: Some("/h".to_string()), default_is_dir: false });
    assert!(matches!(&turn.step, Step::Failed(e) if e.report()
        == "No scan roots configured and ~/dev is not present.\nAdd one with: gitatlas config roots add <path>"));
}

#[test]
fn a_listing_is_filtered() {
    let mut dirty = repo("Server", "/srv/x");
    dirty.health = RepoHealth::Dirty;
    let all = || vec![repo("a", "/a"), dirty.clone(), repo("b", "/SERVERS/b")];
    let names = |args: ListArgs| -> Vec<String> {
        filter_cache(&args, all()).iter().map(|r| r.name.clone()).collect()
    };
    assert_eq!(names(list_args(None, None, false)), ["a", "Server", "b"]);
    assert_eq!(names(list_args(Some("dirty"), None, false)), ["Server"]);
    assert_eq!(names(list_args(None, Some("SerVer"), false)), ["Server", "b"]);
    assert_eq!(names(list_args(Some("clean"), Some("server"), false)), ["b"]);
    assert!(names(list_args(Some("nonsense"), None, false)).is_empty());
    assert_eq!(names(list_args(None, Some("MAIN"), false)).len(), 3);
}

#[test]
fn an_empty_listing_is_remarked_on() {
    let (t, turn) = start(false, Command::List(list_args(None, Some("q"), false)));
    assert!(matches!(turn.step, Step::Ask(Request::LoadCache)));
    let (_, turn) = step(t, Reply::Repos(vec![]));
    assert_eq!(
        said(&turn),
        ["! No cached repos matching 'q'. Run `gitatlas scan` first.", "(no repositories)"]
    );
    let (t, _) = start(true, Command::List(list_args(None, None, false)));
    let (_, turn) = step(t, Reply::Repos(vec![]));
    assert_eq!(said(&turn), ["json"]);
}

#[test]
fn a_refreshed_listing_scans_first() {
    let (t, turn) = start(true, Command::List(list_args(None, None, true)));
    assert!(matches!(turn.step, Step::Ask(Request::ReadRoots)));
    let config = Config { scan_roots: own(&["/a"]) };
    let (t, _) = step(t, Reply::Roots { config, home: None, default_is_dir: false });
    let (t, turn) = step(t, Reply::Repos(vec![repo("r", "/r")]));
    assert_eq!(said(&turn), ["save 1", "json"]);
    assert!(matches!(turn.step, Step::Ask(Request::LoadCache)));
    let (_, turn) = step(t, Reply::Repos(vec![]));
    assert_eq!(said(&turn), ["json"]);
    assert!(ends(&turn));
}

#[test]
fn a_status_is_shown() {
    let (t, turn) = at_r(false, Command::Status(arg()));
    assert!(matches!(&turn.step, Step::Ask(Request::Info(p)) if p == "/r"));
    let mut r = repo("r", "/r");
    r.remote_url = Some("u".to_string());
    let (_, turn) = step(t, Reply::Repo(r));
    assert_eq!(
        said(&turn),
        [
            "r",
            "  path:        /r",
            "  branch:      main",
            "  ahead:       0   behind: 0",
            "  dirty files: 0",
            "  stashes:     0",
            "  health:      clean",
            "  origin:      u",
            "  checked:     now",
        ]
    );
}

fn bulk(repos: &[&str], all: bool) -> BulkArgs {
    BulkArgs { repos: own(repos), all }
}

#[test]
fn a_fetch_of_all_goes_on_after_failures() {
    let (t, _) = start(false, Command::Fetch(bulk(&[], true)));
    let known = || vec![repo("a", "/a"), repo("b", "/b")];
    let (t, turn) = step(t, Reply::Resolve(ResolveReply::Cache(known())));
    assert_eq!(said(&turn), ["! fetch a"]);
    assert!(matches!(&turn.step, Step::Ask(Request::Operate(Op::Fetch, p)) if p == "/a"));
    let (t, turn) = step(t, git_error("no"));
    assert!(matches!(&turn.step, Step::Ask(Request::Info(p)) if p == "/a"));
    let (t, turn) = step(t, Reply::Repo(repo("a", "/a")));
    assert_eq!(said(&turn), ["  ✗ fetch a: Git error: no", "! fetch b"]);
    let (t, _) = step(t, Reply::Done);
    let (t, turn) = step(t, Reply::Repo(repo("b", "/b")));
    assert_eq!(said(&turn), ["  ✓ fetch b"]);
    assert!(matches!(turn.step, Step::Ask(Request::LoadCache)));
    let (_, turn) = step(t, Reply::Repos(vec![repo("b", "/b"), repo("c", "/c")]));
    assert_eq!(said(&turn), ["save 3"]);
    assert!(ends(&turn));
}

#[test]
fn a_pull_reports_in_json() {
    let (t, _) = start(true, Command::Pull(bulk(&["r"], false)));
    let (t, turn) = step(t, Reply::Resolve(ResolveReply::Cache(vec![repo("r", "/at/r")])));
    assert!(said(&turn).is_empty());
    assert!(matches!(&turn.step, Step::Ask(Request::Operate(Op::Pull, p)) if p == "/at/r"));
    let (t, _) = step(t, git_error("no"));
    let (t, turn) = step(t, Reply::Repo(repo("r", "/at/r")));
    assert!(said(&turn).is_empty());
    let (_, turn) = step(t, Reply::Repos(vec![]));
    assert_eq!(said(&turn), ["save 1", "json"]);
    match &turn.says[1] {
        Say::Json(Data::Bulk(v)) => {
            assert_eq!(v.len(), 1);
            assert_eq!(v[0].name, "r");
            assert_eq!(v[0].path, "/at/r");
            assert_eq!(v[0].error.as_deref(), Some("Git error: no"));
            assert_eq!(v[0].status.name, "r");
        }
        _ => panic!(),
    }
}

#[test]
fn a_bulk_command_needs_targets() {
    let (_, turn) = start(false, Command::Pull(bulk(&[], false)));
    assert!(matches!(&turn.step, Step::Failed(e)
        if e.text() == "Specify one or more repos, or pass --all."));
}

#[test]
fn a_fetch_is_of_all_by_default() {
    let (t, turn) = start(false, Command::Fetch(bulk(&[], false)));
    assert!(matches!(turn.step, Step::Ask(Request::Resolve(_))));
    let (_, turn) = step(t, Reply::Resolve(ResolveReply::Cache(vec![repo("a", "/a")])));
    assert!(matches!(&turn.step, Step::Ask(Request::Operate(Op::Fetch, p)) if p == "/a"));
    let (t, _) = start(false, Command::Fetch(bulk(&[], false)));
    let (_, turn) = step(t, Reply::Resolve(ResolveReply::Cache(vec![])));
    assert!(matches!(&turn.step, Step::Failed(e)
        if e.text() == "Cache is empty. Run `gitatlas scan` first."));
}

#[test]
fn the_cache_is_brought_up_to_date() {
    let mut fresh = repo("b", "/b");
    fresh.ahead = 9;
    let result = |path: &str, status: RepoInfo| BulkResult {
        name: "n".to_string(),
        path: path.to_string(),
        error: None,
        status,
    };
    let results = vec![result("/b", fresh), result("/new", repo("new", "/new"))];
    let cache = refresh_cache_for(vec![repo("a", "/a"), repo("b", "/b"), repo("b2", "/b")], &results);
    let all: Vec<(&str, u32)> = cache.iter().map(|r| (r.name.as_str(), r.ahead)).collect();
    assert_eq!(all, [("a", 0), ("b", 9), ("b2", 0), ("new", 0)]);
}

#[test]
fn a_push_updates_what_is_known() {
    let (t, turn) = at_r(false, Command::Push(arg()));
    assert!(matches!(&turn.step, Step::Ask(Request::Operate(Op::Push, p)) if p == "/r"));
    let (t, turn) = step(t, Reply::Done);
    assert_eq!(said(&turn), ["  ✓ push r"]);
    let (t, _) = step(t, Reply::Repo(repo("r", "/r")));
    let (_, turn) = step(t, Reply::Repos(vec![repo("r", "/r")]));
    assert_eq!(said(&turn), ["save 1"]);

    let (t, _) = at_r(true, Command::Push(arg()));
    let (t, turn) = step(t, git_error("no"));
    assert!(said(&turn).is_empty());
    let (t, _) = step(t, Reply::Repo(repo("r", "/r")));
    let (_, turn) = step(t, Reply::Repos(vec![]));
    assert_eq!(said(&turn), ["json"]);
    assert!(matches!(&turn.says[0], Say::Json(Data::Pushed { repo, error })
        if repo == "r" && error.as_deref() == Some("Git error: no")));
    assert!(ends(&turn));
}

#[test]
fn a_log_may_follow_a_file() {
    let log = |file: Option<&str>| LogArgs {
        repo: "r".to_string(),
        count: 5,
        file: file.map(|f| f.to_string()),
    };
    let (t, turn) = at_r(false, Command::Log(log(None)));
    assert!(matches!(&turn.step, Step::Ask(Request::Log { path, count: 5 }) if path == "/r"));
    let (_, turn) = step(t, Reply::Commits(vec![]));
    assert_eq!(said(&turn), ["(no commits)"]);
    let (t, turn) = at_r(true, Command::Log(log(Some("f"))));
    assert!(matches!(&turn.step, Step::Ask(Request::FileHistory { file, count: 5, .. }) if file == "f"));
    let (_, turn) = step(t, git_error("bad"));
    assert!(matches!(&turn.step, Step::Failed(e) if e.report() == "Git error: bad: bad"));
}

#[test]
fn a_commit_is_shown_with_its_files() {
    let args = ShowArgs { repo: "r".to_string(), commit: "abc".to_string() };
    let (t, turn) = at_r(false, Command::Show(args));
    assert!(matches!(&turn.step, Step::Ask(Request::CommitFiles { commit, .. }) if commit == "abc"));
    let files =
        vec![CommitFileChange { path: "f".to_string(), status: "added".to_string() }];
    let (t, turn) = step(t, Reply::Files(files));
    assert!(matches!(&turn.step, Step::Ask(Request::CommitDiff { path, commit })
        if path == "/r" && commit == "abc"));
    let (_, turn) = step(t, Reply::Text("+x\n-y".to_string()));
    assert_eq!(said(&turn), ["commit abc", "", "  A f", "", "+x", "-y"]);
}

#[test]
fn a_diff_may_be_empty() {
    let args = |path: Option<&str>| DiffArgs {
        repo: "r".to_string(),
        staged: true,
        path: path.map(|p| p.to_string()),
    };
    let (t, turn) = at_r(false, Command::Diff(args(None)));
    assert!(matches!(turn.step, Step::Ask(Request::WorkdirDiff { staged: true, .. })));
    let (_, turn) = step(t, Reply::Text(String::new()));
    assert_eq!(said(&turn), ["(no changes)"]);
    let (_, turn) = at_r(false, Command::Diff(args(Some("f"))));
    assert!(matches!(&turn.step, Step::Ask(Request::FileDiff { file, staged: true, .. }) if file == "f"));
}

#[test]
fn files_are_staged_and_unstaged() {
    let args = |paths: &[&str], all: bool| StageArgs { repo: "r".to_string(), paths: own(paths), all };
    let (t, turn) = at_r(false, Command::Add(args(&["f"], false)));
    assert!(matches!(&turn.step, Step::Ask(Request::StageFiles { files, .. }) if files == &own(&["f"])));
    let (t, turn) = step(t, Reply::Done);
    assert!(matches!(&turn.step, Step::Ask(Request::Changes(p)) if p == "/r"));
    let (_, turn) = step(t, Reply::Changes(vec![]));
    assert_eq!(said(&turn), ["(clean working tree)"]);
    let (_, turn) = at_r(false, Command::Reset(args(&["f"], false)));
    assert!(matches!(turn.step, Step::Ask(Request::UnstageFiles { .. })));
    let (_, turn) = at_r(false, Command::Add(args(&[], true)));
    assert!(matches!(turn.step, Step::Ask(Request::StageAll(_))));
    let (_, turn) = at_r(false, Command::Reset(args(&["f"], true)));
    assert!(matches!(turn.step, Step::Ask(Request::UnstageAll(_))));
    let (_, turn) = at_r(false, Command::Add(args(&[], false)));
    assert!(matches!(&turn.step, Step::Failed(e) if e.text() == "Specify file paths, or pass --all"));
}

#[test]
fn commits_and_squashes_are_told() {
    let args = CommitArgs { repo: "r".to_string(), message: "why".to_string() };
    let (t, turn) = at_r(false, Command::Commit(args));
    assert!(matches!(&turn.step, Step::Ask(Request::Commit { message, .. }) if message == "why"));
    let (_, turn) = step(t, Reply::Text("0123456789".to_string()));
    assert_eq!(said(&turn), ["commit 0123456", "  why"]);
    let args = SquashArgs { repo: "r".to_string(), count: 3, message: "m".to_string() };
    let (t, turn) = at_r(false, Command::Squash(args));
    assert!(matches!(turn.step, Step::Ask(Request::Squash { count: 3, .. })));
    let (_, turn) = step(t, Reply::Text("0123456789".to_string()));
    assert_eq!(said(&turn), ["squashed 3 commits into 0123456"]);
}

#[test]
fn branches_are_managed() {
    let cmd = |action: Option<BranchAction>| {
        Command::Branch(BranchCmd { repo: "r".to_string(), action })
    };
    let name = || "b".to_string();
    let (t, turn) = at_r(false, cmd(None));
    assert!(matches!(turn.step, Step::Ask(Request::Branches(_))));
    let (_, turn) = step(t, Reply::Branches(vec![]));
    assert_eq!(said(&turn), ["(no branches)"]);
    let told = |json: bool, action: BranchAction| {
        let (t, _) = at_r(json, cmd(Some(action)));
        let (_, turn) = step(t, Reply::Done);
        assert!(ends(&turn));
        said(&turn)
    };
    assert_eq!(told(false, BranchAction::Create { name: name() }), ["created branch b"]);
    assert_eq!(told(false, BranchAction::Checkout { name: name() }), ["checked out b"]);
    assert_eq!(told(false, BranchAction::Delete { name: name() }), ["deleted b"]);
    assert_eq!(told(true, BranchAction::Create { name: name() }), ["json"]);
    let (t, turn) = at_r(false, cmd(Some(BranchAction::Merge { name: name() })));
    assert!(matches!(&turn.step, Step::Ask(Request::Merge { name, .. }) if name == "b"));
    let (_, turn) = step(t, Reply::Text("Already up to date".to_string()));
    assert_eq!(said(&turn), ["merge b: Already up to date"]);
}

#[test]
fn stashes_are_managed() {
    let cmd = |action: Option<StashAction>| {
        Command::Stash(StashCmd { repo: "r".to_string(), action })
    };
    let (t, _) = at_r(false, cmd(None));
    let (_, turn) = step(t, Reply::Stashes(vec![]));
    assert_eq!(said(&turn), ["(no stashes)"]);
    let told = |action: StashAction| {
        let (t, _) = at_r(false, cmd(Some(action)));
        said(&step(t, Reply::Done).1)
    };
    assert_eq!(told(StashAction::Save { message: String::new() }), ["stash saved"]);
    assert_eq!(told(StashAction::Pop { index: 0 }), ["popped stash@{0}"]);
    assert_eq!(told(StashAction::Drop { index: 12 }), ["dropped stash@{12}"]);
}

#[test]
fn remotes_are_managed() {
    let cmd = |action: Option<RemoteAction>| {
        Command::Remote(RemoteCmd { repo: "r".to_string(), action })
    };
    let (t, _) = at_r(false, cmd(None));
    let (_, turn) = step(t, Reply::Remotes(vec![]));
    assert_eq!(said(&turn), ["(no remotes)"]);
    let told = |action: RemoteAction| {
        let (t, _) = at_r(false, cmd(Some(action)));
        said(&step(t, Reply::Done).1)
    };
    let s = |x: &str| x.to_string();
    assert_eq!(told(RemoteAction::Add { name: s("o"), url: s("u") }), ["added remote o -> u"]);
    assert_eq!(told(RemoteAction::Remove { name: s("o") }), ["removed remote o"]);
    assert_eq!(told(RemoteAction::Rename { old: s("o"), new: s("n") }), ["renamed remote o -> n"]);
}

#[test]
fn a_profile_is_read_set_and_read() {
    let args = |name: Option<&str>, email: Option<&str>| {
        Command::Profile(ProfileArgs {
            repo: "r".to_string(),
            set_name: name.map(|s| s.to_string()),
            set_email: email.map(|s| s.to_string()),
        })
    };
    let profile =
        |n: &str, e: &str| Reply::Profile(GitProfile { name: n.to_string(), email: e.to_string() });
    let (t, _) = at_r(false, args(None, None));
    let (_, turn) = step(t, profile("Ann", "a@x"));
    assert_eq!(said(&turn), ["  user.name:  Ann", "  user.email: a@x"]);

    let (t, _) = at_r(false, args(Some("Bob"), None));
    let (t, turn) = step(t, profile("Ann", "a@x"));
    assert!(matches!(&turn.step, Step::Ask(Request::SetProfile { name, email, .. })
        if name == "Bob" && email == "a@x"));
    let (t, turn) = step(t, Reply::Done);
    assert!(matches!(turn.step, Step::Ask(Request::Profile(_))));
    let (_, turn) = step(t, profile("Bob", "a@x"));
    assert!(ends(&turn));

    let (t, _) = at_r(false, args(None, Some("b@x")));
    let (_, turn) = step(t, git_error("none"));
    assert!(matches!(&turn.step, Step::Ask(Request::SetProfile { name, email, .. })
        if name.is_empty() && email == "b@x"));
}

#[test]
fn readmes_and_pages_are_printed() {
    let (t, _) = at_r(false, Command::Readme(arg()));
    let (_, turn) = step(t, Reply::Readme(Some("# hi".to_string())));
    assert_eq!(said(&turn), ["raw # hi"]);
    let (t, _) = at_r(false, Command::Readme(arg()));
    let (_, turn) = step(t, Reply::Readme(None));
    assert_eq!(said(&turn), ["(no README found)"]);
    let (t, _) = at_r(false, Command::Pr(arg()));
    let (_, turn) = step(t, Reply::Text("https://x".to_string()));
    assert_eq!(said(&turn), ["https://x"]);
    let (t, _) = at_r(true, Command::Pr(arg()));
    let (_, turn) = step(t, Reply::Text("https://x".to_string()));
    assert_eq!(said(&turn), ["json"]);
}

fn config(action: ConfigAction) -> Command {
    Command::Config(ConfigCmd { action })
}

fn roots(action: RootsAction) -> Command {
    config(ConfigAction::Roots { action })
}

fn configured(v: &[&str]) -> Reply {
    Reply::Config(Config { scan_roots: own(v) })
}

#[test]
fn the_configuration_is_shown() {
    let (t, turn) = start(false, config(ConfigAction::Show));
    assert!(matches!(turn.step, Step::Ask(Request::LoadConfig)));
    let (_, turn) = step(t, configured(&["/a", "/b"]));
    assert_eq!(said(&turn), ["scan roots:\n  /a\n  /b"]);
    let (t, _) = start(false, config(ConfigAction::Show));
    assert_eq!(
        said(&step(t, configured(&[])).1),
        ["scan roots:\n  (none; defaulting to ~/dev)"]
    );
    let (t, _) = start(false, roots(RootsAction::List));
    assert_eq!(said(&step(t, configured(&["/a", "/b"])).1), ["/a", "/b"]);
    let (t, _) = start(false, roots(RootsAction::List));
    assert_eq!(said(&step(t, configured(&[])).1), ["(no scan roots configured)"]);
}

#[test]
fn roots_are_added_once() {
    let add = || roots(RootsAction::Add { path: "x".to_string() });
    let (t, _) = start(false, add());
    let (t, turn) = step(t, configured(&["/a"]));
    assert!(matches!(&turn.step, Step::Ask(Request::Canonicalize(p)) if p == "x"));
    let (_, turn) = step(t, Reply::Canonical(Some("/x".to_string())));
    assert_eq!(said(&turn), ["config /a,/x", "added root /x"]);

    let (t, _) = start(false, add());
    let (t, _) = step(t, configured(&["x"]));
    let (_, turn) = step(t, Reply::Canonical(None));
    assert_eq!(said(&turn), ["added root x"]);
}

#[test]
fn roots_are_removed() {
    let remove = || roots(RootsAction::Remove { path: "/x".to_string() });
    let (t, _) = start(false, remove());
    assert_eq!(said(&step(t, configured(&["/x", "/a", "/x"])).1), ["config /a", "removed root /x"]);
    let (t, _) = start(false, remove());
    assert_eq!(said(&step(t, configured(&["/a"])).1), ["config /a", "(not found) /x"]);
    let (t, _) = start(true, remove());
    assert_eq!(said(&step(t, configured(&["/a"])).1), ["config /a", "json"]);
}

#[test]
fn roots_are_replaced() {
    let (_, turn) = start(false, roots(RootsAction::Replace { paths: own(&["/p", "/q"]) }));
    assert_eq!(said(&turn), ["config /p,/q", "scan roots updated"]);
    assert!(ends(&turn));
    let (_, turn) = start(true, roots(RootsAction::Replace { paths: own(&["/p"]) }));
    assert_eq!(said(&turn), ["config /p", "json"]);
}

#[test]
fn the_terminal_interface_is_started() {
    let (t, turn) = start(false, Command::Tui);
    assert!(matches!(turn.step, Step::Ask(Request::Tui)));
    assert!(ends(&step(t, Reply::Done).1));
}

#[test]
fn an_unknown_repo_ends_a_command() {
    let (t, _) = start(false, Command::Status(arg()));
    let (t, _) = step(t, Reply::Resolve(ResolveReply::Cache(vec![])));
    let (_, turn) = step(t, Reply::Resolve(ResolveReply::Exists(false)));
    assert!(matches!(turn.step, Step::Failed(_)));
}

#[test]
fn operations_have_names() {
    assert_eq!((op_name(Op::Fetch), op_name(Op::Pull), op_name(Op::Push)), ("fetch", "pull", "push"));
    let n = notice_text(&Notice::NothingCached(None));
    assert_eq!(n[0].text, "No cached repos. Run `gitatlas scan` first.");
}
