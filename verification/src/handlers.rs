//! What each command does, as a dialogue with the outside.
//!
//! A command asks for one piece of outside work at a time. From each reply it
//! decides what to say, what to keep and what to ask for next.
use vstd::prelude::*;
use vstd::string::*;

use crate::cache;
use crate::cache::{find_place, place_is_first, place_of, roots_to_scan, updated_in, with_status, Config};
use crate::cli::{BranchAction, BulkArgs, Cli, Command, ConfigAction, ListArgs, RemoteAction,
    RootsAction, StashAction};
use crate::error::{AppError, AppErrorView};
use crate::git::ssh_config::opt_str_view;
use crate::models::{health_named, BranchInfo, CommitFileChange, CommitInfo, FileChange, GitProfile,
    RemoteInfo, RepoHealth, RepoInfo, StashEntry};
use crate::report::{results_view, says_view, BulkResult, BulkResultView, Data, DataView, Notice,
    NoticeView, Op, Say, SayView};
use crate::resolver;
use crate::resolver::{replies_to_find, replies_to_find_many, search_for, search_many, targets_view, ManyStep, ManyStepView, ResolveReply,
    ResolveRequest, ResolveRequestView, ResolveStep, ResolveStepView, Resolving, ResolvingMany,
    ResolvingManyView, ResolvingView, Target};
use crate::text;
use crate::text::{decimal_of, lowercase, opt_view, texts};

verus! {

pub struct Ctx {
    pub json: bool,
}

// ── Requests and replies ─────────────────

/// Outside work that a command needs.
pub enum Request {
    Resolve(ResolveRequest),
    /// Read the configuration and look at the default root.
    ReadRoots,
    /// Look for repositories under the roots.
    Scan(Vec<String>),
    LoadCache,
    LoadConfig,
    Canonicalize(String),
    Info(String),
    Operate(Op, String),
    Log { path: String, count: usize },
    FileHistory { path: String, file: String, count: usize },
    CommitFiles { path: String, commit: String },
    CommitDiff { path: String, commit: String },
    FileDiff { path: String, file: String, staged: bool },
    WorkdirDiff { path: String, staged: bool },
    StageAll(String),
    UnstageAll(String),
    StageFiles { path: String, files: Vec<String> },
    UnstageFiles { path: String, files: Vec<String> },
    Changes(String),
    Commit { path: String, message: String },
    Squash { path: String, count: usize, message: String },
    Branches(String),
    CreateBranch { path: String, name: String },
    Checkout { path: String, name: String },
    DeleteBranch { path: String, name: String },
    Merge { path: String, name: String },
    Stashes(String),
    StashSave { path: String, message: String },
    StashPop { path: String, index: usize },
    StashDrop { path: String, index: usize },
    Remotes(String),
    AddRemote { path: String, name: String, url: String },
    RemoveRemote { path: String, name: String },
    RenameRemote { path: String, old: String, new: String },
    Profile(String),
    SetProfile { path: String, name: String, email: String },
    Readme(String),
    Page(String),
    Tui,
}

pub enum RequestView {
    Resolve(ResolveRequestView),
    ReadRoots,
    Scan(Seq<Seq<char>>),
    LoadCache,
    LoadConfig,
    Canonicalize(Seq<char>),
    Info(Seq<char>),
    Operate(Op, Seq<char>),
    Log { path: Seq<char>, count: usize },
    FileHistory { path: Seq<char>, file: Seq<char>, count: usize },
    CommitFiles { path: Seq<char>, commit: Seq<char> },
    CommitDiff { path: Seq<char>, commit: Seq<char> },
    FileDiff { path: Seq<char>, file: Seq<char>, staged: bool },
    WorkdirDiff { path: Seq<char>, staged: bool },
    StageAll(Seq<char>),
    UnstageAll(Seq<char>),
    StageFiles { path: Seq<char>, files: Seq<Seq<char>> },
    UnstageFiles { path: Seq<char>, files: Seq<Seq<char>> },
    Changes(Seq<char>),
    Commit { path: Seq<char>, message: Seq<char> },
    Squash { path: Seq<char>, count: usize, message: Seq<char> },
    Branches(Seq<char>),
    CreateBranch { path: Seq<char>, name: Seq<char> },
    Checkout { path: Seq<char>, name: Seq<char> },
    DeleteBranch { path: Seq<char>, name: Seq<char> },
    Merge { path: Seq<char>, name: Seq<char> },
    Stashes(Seq<char>),
    StashSave { path: Seq<char>, message: Seq<char> },
    StashPop { path: Seq<char>, index: usize },
    StashDrop { path: Seq<char>, index: usize },
    Remotes(Seq<char>),
    AddRemote { path: Seq<char>, name: Seq<char>, url: Seq<char> },
    RemoveRemote { path: Seq<char>, name: Seq<char> },
    RenameRemote { path: Seq<char>, old: Seq<char>, new: Seq<char> },
    Profile(Seq<char>),
    SetProfile { path: Seq<char>, name: Seq<char>, email: Seq<char> },
    Readme(Seq<char>),
    Page(Seq<char>),
    Tui,
}

impl View for Request {
    type V = RequestView;

    open spec fn view(&self) -> RequestView {
        match self {
            Request::Resolve(r) => RequestView::Resolve(r@),
            Request::ReadRoots => RequestView::ReadRoots,
            Request::Scan(v) => RequestView::Scan(texts(v@)),
            Request::LoadCache => RequestView::LoadCache,
            Request::LoadConfig => RequestView::LoadConfig,
            Request::Canonicalize(p) => RequestView::Canonicalize(p@),
            Request::Info(p) => RequestView::Info(p@),
            Request::Operate(op, p) => RequestView::Operate(*op, p@),
            Request::Log { path, count } => RequestView::Log { path: path@, count: *count },
            Request::FileHistory { path, file, count } => RequestView::FileHistory {
                path: path@,
                file: file@,
                count: *count,
            },
            Request::CommitFiles { path, commit } => RequestView::CommitFiles {
                path: path@,
                commit: commit@,
            },
            Request::CommitDiff { path, commit } => RequestView::CommitDiff {
                path: path@,
                commit: commit@,
            },
            Request::FileDiff { path, file, staged } => RequestView::FileDiff {
                path: path@,
                file: file@,
                staged: *staged,
            },
            Request::WorkdirDiff { path, staged } => RequestView::WorkdirDiff {
                path: path@,
                staged: *staged,
            },
            Request::StageAll(p) => RequestView::StageAll(p@),
            Request::UnstageAll(p) => RequestView::UnstageAll(p@),
            Request::StageFiles { path, files } => RequestView::StageFiles {
                path: path@,
                files: texts(files@),
            },
            Request::UnstageFiles { path, files } => RequestView::UnstageFiles {
                path: path@,
                files: texts(files@),
            },
            Request::Changes(p) => RequestView::Changes(p@),
            Request::Commit { path, message } => RequestView::Commit {
                path: path@,
                message: message@,
            },
            Request::Squash { path, count, message } => RequestView::Squash {
                path: path@,
                count: *count,
                message: message@,
            },
            Request::Branches(p) => RequestView::Branches(p@),
            Request::CreateBranch { path, name } => RequestView::CreateBranch {
                path: path@,
                name: name@,
            },
            Request::Checkout { path, name } => RequestView::Checkout { path: path@, name: name@ },
            Request::DeleteBranch { path, name } => RequestView::DeleteBranch {
                path: path@,
                name: name@,
            },
            Request::Merge { path, name } => RequestView::Merge { path: path@, name: name@ },
            Request::Stashes(p) => RequestView::Stashes(p@),
            Request::StashSave { path, message } => RequestView::StashSave {
                path: path@,
                message: message@,
            },
            Request::StashPop { path, index } => RequestView::StashPop {
                path: path@,
                index: *index,
            },
            Request::StashDrop { path, index } => RequestView::StashDrop {
                path: path@,
                index: *index,
            },
            Request::Remotes(p) => RequestView::Remotes(p@),
            Request::AddRemote { path, name, url } => RequestView::AddRemote {
                path: path@,
                name: name@,
                url: url@,
            },
            Request::RemoveRemote { path, name } => RequestView::RemoveRemote {
                path: path@,
                name: name@,
            },
            Request::RenameRemote { path, old, new } => RequestView::RenameRemote {
                path: path@,
                old: old@,
                new: new@,
            },
            Request::Profile(p) => RequestView::Profile(p@),
            Request::SetProfile { path, name, email } => RequestView::SetProfile {
                path: path@,
                name: name@,
                email: email@,
            },
            Request::Readme(p) => RequestView::Readme(p@),
            Request::Page(p) => RequestView::Page(p@),
            Request::Tui => RequestView::Tui,
        }
    }
}

/// What came of outside work.
pub enum Reply {
    Failed(AppError),
    Done,
    Resolve(ResolveReply),
    Roots { config: Config, home: Option<String>, default_is_dir: bool },
    Repos(Vec<RepoInfo>),
    Repo(RepoInfo),
    Config(Config),
    /// The absolute form of a path, if it has one.
    Canonical(Option<String>),
    Commits(Vec<CommitInfo>),
    Files(Vec<CommitFileChange>),
    Changes(Vec<FileChange>),
    Branches(Vec<BranchInfo>),
    Stashes(Vec<StashEntry>),
    Remotes(Vec<RemoteInfo>),
    Profile(GitProfile),
    Readme(Option<String>),
    /// A diff, the id of a commit, what came of a merge, or an address.
    Text(String),
}

// ── Waiting ──────────────────────────────

/// What is to be done with a repository once it is found.
pub enum Job {
    Status,
    Push { repo: String },
    Log { count: usize, file: Option<String> },
    Show { commit: String },
    Diff { staged: bool, file: Option<String> },
    Stage { add: bool, all: bool, paths: Vec<String> },
    Commit { message: String },
    Squash { count: usize, message: String },
    Branch(BranchAction),
    Stash(StashAction),
    Remote(RemoteAction),
    Profile { set_name: Option<String>, set_email: Option<String> },
    Readme,
    Pr,
}

/// What a command waits for.
pub enum Wait {
    /// The roots, to scan them, and then to list what was found.
    Roots(Option<ListArgs>),
    Scanned(Option<ListArgs>),
    Cached { args: ListArgs, refreshed: bool },
    Resolving(Resolving, Job),
    Info,
    Pushed { path: String, repo: String },
    PushInfo { repo: String, error: Option<String> },
    PushCache { repo: String, error: Option<String>, updated: RepoInfo },
    Commits,
    ShownFiles { path: String, commit: String },
    ShownDiff { commit: String, files: Vec<CommitFileChange> },
    Diff,
    Staged { path: String },
    Changes,
    Committed { message: String },
    Squashed { count: usize },
    Branches,
    Merged { name: String },
    Stashes,
    Remotes,
    /// That something is done, to say so.
    Did { what: String, rest: String },
    ProfileRead { path: String, set_name: Option<String>, set_email: Option<String> },
    ProfileSet { path: String },
    Profile,
    Readme,
    Page,
    ResolvingMany(Op, ResolvingMany),
    BulkWork { op: Op, targets: Vec<Target>, at: usize, results: Vec<BulkResult> },
    BulkInfo {
        op: Op,
        targets: Vec<Target>,
        at: usize,
        results: Vec<BulkResult>,
        error: Option<String>,
    },
    BulkCache { results: Vec<BulkResult> },
    ConfigShown,
    RootsListed,
    RootAdded { path: String },
    RootPath { path: String, roots: Vec<String> },
    RootRemoved { path: String },
    Tui,
    Over,
}

pub enum WaitView {
    Roots(Option<ListArgs>),
    Scanned(Option<ListArgs>),
    Cached { args: ListArgs, refreshed: bool },
    Resolving(ResolvingView, Job),
    Info,
    Pushed { path: Seq<char>, repo: Seq<char> },
    PushInfo { repo: Seq<char>, error: Option<Seq<char>> },
    PushCache { repo: Seq<char>, error: Option<Seq<char>>, updated: RepoInfo },
    Commits,
    ShownFiles { path: Seq<char>, commit: Seq<char> },
    ShownDiff { commit: Seq<char>, files: Seq<CommitFileChange> },
    Diff,
    Staged { path: Seq<char> },
    Changes,
    Committed { message: Seq<char> },
    Squashed { count: usize },
    Branches,
    Merged { name: Seq<char> },
    Stashes,
    Remotes,
    Did { what: Seq<char>, rest: Seq<char> },
    ProfileRead {
        path: Seq<char>,
        set_name: Option<Seq<char>>,
        set_email: Option<Seq<char>>,
    },
    ProfileSet { path: Seq<char> },
    Profile,
    Readme,
    Page,
    ResolvingMany(Op, ResolvingManyView),
    BulkWork {
        op: Op,
        targets: Seq<(Seq<char>, Seq<char>)>,
        at: int,
        results: Seq<BulkResultView>,
    },
    BulkInfo {
        op: Op,
        targets: Seq<(Seq<char>, Seq<char>)>,
        at: int,
        results: Seq<BulkResultView>,
        error: Option<Seq<char>>,
    },
    BulkCache { results: Seq<BulkResultView> },
    ConfigShown,
    RootsListed,
    RootAdded { path: Seq<char> },
    RootPath { path: Seq<char>, roots: Seq<Seq<char>> },
    RootRemoved { path: Seq<char> },
    Tui,
    Over,
}

impl View for Wait {
    type V = WaitView;

    open spec fn view(&self) -> WaitView {
        match self {
            Wait::Roots(a) => WaitView::Roots(*a),
            Wait::Scanned(a) => WaitView::Scanned(*a),
            Wait::Cached { args, refreshed } => WaitView::Cached {
                args: *args,
                refreshed: *refreshed,
            },
            Wait::Resolving(s, job) => WaitView::Resolving(s@, *job),
            Wait::Info => WaitView::Info,
            Wait::Pushed { path, repo } => WaitView::Pushed { path: path@, repo: repo@ },
            Wait::PushInfo { repo, error } => WaitView::PushInfo {
                repo: repo@,
                error: opt_view(*error),
            },
            Wait::PushCache { repo, error, updated } => WaitView::PushCache {
                repo: repo@,
                error: opt_view(*error),
                updated: *updated,
            },
            Wait::Commits => WaitView::Commits,
            Wait::ShownFiles { path, commit } => WaitView::ShownFiles {
                path: path@,
                commit: commit@,
            },
            Wait::ShownDiff { commit, files } => WaitView::ShownDiff {
                commit: commit@,
                files: files@,
            },
            Wait::Diff => WaitView::Diff,
            Wait::Staged { path } => WaitView::Staged { path: path@ },
            Wait::Changes => WaitView::Changes,
            Wait::Committed { message } => WaitView::Committed { message: message@ },
            Wait::Squashed { count } => WaitView::Squashed { count: *count },
            Wait::Branches => WaitView::Branches,
            Wait::Merged { name } => WaitView::Merged { name: name@ },
            Wait::Stashes => WaitView::Stashes,
            Wait::Remotes => WaitView::Remotes,
            Wait::Did { what, rest } => WaitView::Did { what: what@, rest: rest@ },
            Wait::ProfileRead { path, set_name, set_email } => WaitView::ProfileRead {
                path: path@,
                set_name: opt_view(*set_name),
                set_email: opt_view(*set_email),
            },
            Wait::ProfileSet { path } => WaitView::ProfileSet { path: path@ },
            Wait::Profile => WaitView::Profile,
            Wait::Readme => WaitView::Readme,
            Wait::Page => WaitView::Page,
            Wait::ResolvingMany(op, s) => WaitView::ResolvingMany(*op, s@),
            Wait::BulkWork { op, targets, at, results } => WaitView::BulkWork {
                op: *op,
                targets: targets_view(targets@),
                at: *at as int,
                results: results_view(results@),
            },
            Wait::BulkInfo { op, targets, at, results, error } => WaitView::BulkInfo {
                op: *op,
                targets: targets_view(targets@),
                at: *at as int,
                results: results_view(results@),
                error: opt_view(*error),
            },
            Wait::BulkCache { results } => WaitView::BulkCache {
                results: results_view(results@),
            },
            Wait::ConfigShown => WaitView::ConfigShown,
            Wait::RootsListed => WaitView::RootsListed,
            Wait::RootAdded { path } => WaitView::RootAdded { path: path@ },
            Wait::RootPath { path, roots } => WaitView::RootPath {
                path: path@,
                roots: texts(roots@),
            },
            Wait::RootRemoved { path } => WaitView::RootRemoved { path: path@ },
            Wait::Tui => WaitView::Tui,
            Wait::Over => WaitView::Over,
        }
    }
}

/// How a command goes on.
pub enum Step {
    Ask(Request),
    Done,
    Failed(AppError),
}

pub enum StepView {
    Ask(RequestView),
    Done,
    Failed(AppErrorView),
}

impl View for Step {
    type V = StepView;

    open spec fn view(&self) -> StepView {
        match self {
            Step::Ask(r) => StepView::Ask(r@),
            Step::Done => StepView::Done,
            Step::Failed(e) => StepView::Failed(e@),
        }
    }
}

/// What a command says, what it does next, and what it then waits for.
pub struct Move {
    pub wait: Wait,
    pub says: Vec<Say>,
    pub step: Step,
}

pub struct MoveView {
    pub wait: WaitView,
    pub says: Seq<SayView>,
    pub step: StepView,
}

impl View for Move {
    type V = MoveView;

    open spec fn view(&self) -> MoveView {
        MoveView { wait: self.wait@, says: says_view(self.says@), step: self.step@ }
    }
}

pub open spec fn asking(wait: WaitView, request: RequestView) -> MoveView {
    MoveView { wait, says: seq![], step: StepView::Ask(request) }
}

pub open spec fn ending(says: Seq<SayView>) -> MoveView {
    MoveView { wait: WaitView::Over, says, step: StepView::Done }
}

pub open spec fn failing(e: AppErrorView) -> MoveView {
    MoveView { wait: WaitView::Over, says: seq![], step: StepView::Failed(e) }
}

/// Say something first.
pub open spec fn after_saying(says: Seq<SayView>, m: MoveView) -> MoveView {
    MoveView { says: says + m.says, ..m }
}

/// Show data in the form that was asked for.
pub open spec fn emitted(json: bool, d: DataView) -> SayView {
    if json {
        SayView::Json(d)
    } else {
        SayView::Text(d)
    }
}

/// Show data that is only text, unless JSON was asked for.
pub open spec fn remarked(json: bool, d: DataView) -> Seq<SayView> {
    if json {
        seq![]
    } else {
        seq![SayView::Text(d)]
    }
}

fn ask(wait: Wait, request: Request) -> (r: Move)
    ensures
        r@ == asking(wait@, request@),
{
    let says: Vec<Say> = Vec::new();
    assert(says_view(says@) =~= seq![]);
    Move { wait, says, step: Step::Ask(request) }
}

fn end(says: Vec<Say>) -> (r: Move)
    ensures
        r@ == ending(says_view(says@)),
{
    Move { wait: Wait::Over, says, step: Step::Done }
}

fn end_with(s: Say) -> (r: Move)
    ensures
        r@ == ending(seq![s@]),
{
    let mut says: Vec<Say> = Vec::new();
    says.push(s);
    assert(says_view(says@) =~= seq![s@]);
    end(says)
}

fn fail(e: AppError) -> (r: Move)
    ensures
        r@ == failing(e@),
{
    let says: Vec<Say> = Vec::new();
    assert(says_view(says@) =~= seq![]);
    Move { wait: Wait::Over, says, step: Step::Failed(e) }
}

fn say_first(says: Vec<Say>, m: Move) -> (r: Move)
    ensures
        r@ == after_saying(says_view(says@), m@),
{
    let mut all = says;
    let mut rest = m.says;
    all.append(&mut rest);
    assert(says_view(all@) =~= says_view(says@) + says_view(m.says@));
    Move { wait: m.wait, says: all, step: m.step }
}

fn emit(json: bool, d: Data) -> (r: Say)
    ensures
        r@ == emitted(json, d@),
{
    if json {
        Say::Json(d)
    } else {
        Say::Text(d)
    }
}

fn remark(json: bool, d: Data) -> (r: Vec<Say>)
    ensures
        says_view(r@) == remarked(json, d@),
{
    let mut says: Vec<Say> = Vec::new();
    if !json {
        says.push(Say::Text(d));
    }
    assert(says_view(says@) =~= remarked(json, d@));
    says
}

// ── Listing ──────────────────────────────

/// The repository is one of those asked for.
pub open spec fn is_listed(args: ListArgs, r: RepoInfo) -> bool {
    &&& match args.health {
        Some(h) => r.health == match health_named(h@) {
            Some(t) => t,
            None => RepoHealth::Error,
        },
        None => true,
    }
    &&& match args.search {
        Some(q) => r.has_needle(lowercase(q@)),
        None => true,
    }
}

/// Those of the known repositories that were asked for, as they are kept.
pub open spec fn listing(args: ListArgs, repos: Seq<RepoInfo>) -> Seq<RepoInfo> {
    repos.filter(|r: RepoInfo| is_listed(args, r))
}

fn keeps(args: &ListArgs, r: &RepoInfo) -> (b: bool)
    ensures
        b == is_listed(*args, *r),
{
    let health_fits = match &args.health {
        Some(h) => {
            let target = match RepoHealth::parse(h.as_str()) {
                Some(t) => t,
                None => RepoHealth::Error,
            };
            r.health == target
        },
        None => true,
    };
    if !health_fits {
        return false;
    }
    match &args.search {
        Some(q) => {
            let needle = text::to_lowercase(q.as_str());
            r.mentions(needle.as_str())
        },
        None => true,
    }
}

/// Those of the known repositories that were asked for.
pub fn filter_cache(args: &ListArgs, repos: Vec<RepoInfo>) -> (r: Vec<RepoInfo>)
    ensures
        r@ == listing(*args, repos@),
{
    let ghost f = |r: RepoInfo| is_listed(*args, r);
    let mut out: Vec<RepoInfo> = Vec::new();
    let mut i: usize = 0;
    proof {
        reveal(Seq::filter);
        assert(repos@.take(0) =~= seq![]);
    }
    while i < repos.len()
        invariant
            f == (|r: RepoInfo| is_listed(*args, r)),
            i <= repos@.len(),
            out@ == repos@.take(i as int).filter(f),
        decreases repos@.len() - i,
    {
        proof {
            reveal(Seq::filter);
            assert(repos@.take(i + 1).drop_last() =~= repos@.take(i as int));
        }
        if keeps(args, &repos[i]) {
            out.push(repos[i].clone());
        }
        i = i + 1;
    }
    assert(repos@.take(i as int) =~= repos@);
    out
}

pub open spec fn no_roots_text() -> Seq<char> {
    "No scan roots configured and ~/dev is not present.\nAdd one with: gitatlas config roots add <path>"@
}

// ── The cache ────────────────────────────

/// The known repositories after an operation on several of them.
pub open spec fn refreshed_with(repos: Seq<RepoInfo>, results: Seq<BulkResultView>) -> Seq<RepoInfo>
    decreases results.len(),
{
    if results.len() == 0 {
        repos
    } else {
        with_status(
            refreshed_with(repos, results.drop_last()),
            results.last().path,
            results.last().status,
        )
    }
}

/// The known repositories after an operation on several of them.
pub fn refresh_cache_for(repos: Vec<RepoInfo>, results: &Vec<BulkResult>) -> (r: Vec<RepoInfo>)
    ensures
        r@ == refreshed_with(repos@, results_view(results@)),
{
    let ghost all = results_view(results@);
    let mut out = repos;
    let mut i: usize = 0;
    assert(all.take(0) =~= seq![]);
    while i < results.len()
        invariant
            all == results_view(results@),
            i <= results@.len(),
            out@ == refreshed_with(repos@, all.take(i as int)),
        decreases results@.len() - i,
    {
        assert(all.take(i + 1).drop_last() =~= all.take(i as int));
        assert(all.take(i + 1).last() == results@[i as int]@);
        let updated = results[i].status.clone();
        match find_place(&out, results[i].path.as_str()) {
            Some(k) => {
                out.set(k, updated);
            },
            None => {
                out.push(updated);
            },
        }
        i = i + 1;
    }
    assert(all.take(i as int) =~= all);
    out
}

/// After an operation on several repositories no known one is forgotten, and
/// those at other paths are as they were.
pub proof fn refreshing_keeps_the_others(
    repos: Seq<RepoInfo>,
    results: Seq<BulkResultView>,
    k: int,
)
    requires
        0 <= k < repos.len(),
        forall|i: int|
            0 <= i < results.len() ==> (#[trigger] results[i]).status.path@ == results[i].path,
        forall|i: int| 0 <= i < results.len() ==> (#[trigger] results[i]).path != repos[k].path@,
    ensures
        refreshed_with(repos, results).len() >= repos.len(),
        refreshed_with(repos, results)[k] == repos[k],
    decreases results.len(),
{
    if results.len() > 0 {
        let rest = results.drop_last();
        assert forall|i: int| 0 <= i < rest.len() implies (#[trigger] rest[i]).status.path@
            == rest[i].path && rest[i].path != repos[k].path@ by {
            assert(results[i] == rest[i]);
        }
        refreshing_keeps_the_others(repos, rest, k);
        let before = refreshed_with(repos, rest);
        let last = results[results.len() - 1];
        assert(last.path != repos[k].path@);
        place_is_first(before, last.path);
    }
}

// ── Several repositories ─────────────────

/// The operation goes on with the repository at `at`; after the last one the
/// known repositories are brought up to date.
pub open spec fn bulk_from(
    json: bool,
    op: Op,
    targets: Seq<(Seq<char>, Seq<char>)>,
    at: int,
    results: Seq<BulkResultView>,
) -> MoveView {
    if at < targets.len() {
        MoveView {
            wait: WaitView::BulkWork { op, targets, at, results },
            says: if json {
                seq![]
            } else {
                seq![SayView::Notice(NoticeView::Working(op, targets[at].0))]
            },
            step: StepView::Ask(RequestView::Operate(op, targets[at].1)),
        }
    } else {
        asking(WaitView::BulkCache { results }, RequestView::LoadCache)
    }
}

/// What the search for several repositories has come to.
pub open spec fn after_many(json: bool, op: Op, step: ManyStepView) -> MoveView {
    match step {
        ManyStepView::Ask(s, r) => asking(
            WaitView::ResolvingMany(op, s),
            RequestView::Resolve(r),
        ),
        ManyStepView::Failed(e) => failing(e),
        ManyStepView::Found(targets) => bulk_from(json, op, targets, 0, seq![]),
    }
}

fn bulk_go_on(
    json: bool,
    op: Op,
    targets: Vec<Target>,
    at: usize,
    results: Vec<BulkResult>,
) -> (r: Move)
    ensures
        r@ == bulk_from(
            json,
            op,
            targets_view(targets@),
            at as int,
            results_view(results@),
        ),
{
    if at < targets.len() {
        assert(targets_view(targets@)[at as int] == targets@[at as int]@);
        let name = targets[at].name.clone();
        let path = targets[at].path.clone();
        let mut says: Vec<Say> = Vec::new();
        if !json {
            says.push(Say::Notice(Notice::Working(op, name)));
        }
        assert(says_view(says@) =~= if json {
            seq![]
        } else {
            seq![SayView::Notice(NoticeView::Working(op, name@))]
        });
        Move {
            wait: Wait::BulkWork { op, targets, at, results },
            says,
            step: Step::Ask(Request::Operate(op, path)),
        }
    } else {
        ask(Wait::BulkCache { results }, Request::LoadCache)
    }
}

fn many_go_on(json: bool, op: Op, step: ManyStep) -> (r: Move)
    ensures
        r@ == after_many(json, op, step@),
{
    match step {
        ManyStep::Ask(s, r) => ask(Wait::ResolvingMany(op, s), Request::Resolve(r)),
        ManyStep::Failed(e) => fail(e),
        ManyStep::Found(targets) => {
            let results: Vec<BulkResult> = Vec::new();
            assert(results_view(results@) =~= seq![]);
            bulk_go_on(json, op, targets, 0, results)
        },
    }
}

// ── One repository ───────────────────────

/// What a job asks for, once its repository is found at `path`.
pub open spec fn job_start(job: Job, path: Seq<char>) -> MoveView {
    match job {
        Job::Status => asking(WaitView::Info, RequestView::Info(path)),
        Job::Push { repo } => asking(
            WaitView::Pushed { path, repo: repo@ },
            RequestView::Operate(Op::Push, path),
        ),
        Job::Log { count, file } => asking(
            WaitView::Commits,
            match file {
                Some(f) => RequestView::FileHistory { path, file: f@, count },
                None => RequestView::Log { path, count },
            },
        ),
        Job::Show { commit } => asking(
            WaitView::ShownFiles { path, commit: commit@ },
            RequestView::CommitFiles { path, commit: commit@ },
        ),
        Job::Diff { staged, file } => asking(
            WaitView::Diff,
            match file {
                Some(f) => RequestView::FileDiff { path, file: f@, staged },
                None => RequestView::WorkdirDiff { path, staged },
            },
        ),
        Job::Stage { add, all, paths } => if all {
            asking(
                WaitView::Staged { path },
                if add {
                    RequestView::StageAll(path)
                } else {
                    RequestView::UnstageAll(path)
                },
            )
        } else if paths@.len() == 0 {
            failing(AppErrorView::General("Specify file paths, or pass --all"@))
        } else {
            asking(
                WaitView::Staged { path },
                if add {
                    RequestView::StageFiles { path, files: texts(paths@) }
                } else {
                    RequestView::UnstageFiles { path, files: texts(paths@) }
                },
            )
        },
        Job::Commit { message } => asking(
            WaitView::Committed { message: message@ },
            RequestView::Commit { path, message: message@ },
        ),
        Job::Squash { count, message } => asking(
            WaitView::Squashed { count },
            RequestView::Squash { path, count, message: message@ },
        ),
        Job::Branch(action) => branch_start(action, path),
        Job::Stash(action) => stash_start(action, path),
        Job::Remote(action) => remote_start(action, path),
        Job::Profile { set_name, set_email } => asking(
            if set_name is Some || set_email is Some {
                WaitView::ProfileRead {
                    path,
                    set_name: opt_view(set_name),
                    set_email: opt_view(set_email),
                }
            } else {
                WaitView::Profile
            },
            RequestView::Profile(path),
        ),
        Job::Readme => asking(WaitView::Readme, RequestView::Readme(path)),
        Job::Pr => asking(WaitView::Page, RequestView::Page(path)),
    }
}

/// Ask for something that gives nothing back, and then say that it is done.
pub open spec fn doing(request: RequestView, what: Seq<char>, rest: Seq<char>) -> MoveView {
    asking(WaitView::Did { what, rest }, request)
}

pub open spec fn branch_start(action: BranchAction, path: Seq<char>) -> MoveView {
    match action {
        BranchAction::List => asking(WaitView::Branches, RequestView::Branches(path)),
        BranchAction::Create { name } => doing(
            RequestView::CreateBranch { path, name: name@ },
            "created branch"@,
            " "@ + name@,
        ),
        BranchAction::Checkout { name } => doing(
            RequestView::Checkout { path, name: name@ },
            "checked out"@,
            " "@ + name@,
        ),
        BranchAction::Delete { name } => doing(
            RequestView::DeleteBranch { path, name: name@ },
            "deleted"@,
            " "@ + name@,
        ),
        BranchAction::Merge { name } => asking(
            WaitView::Merged { name: name@ },
            RequestView::Merge { path, name: name@ },
        ),
    }
}

pub open spec fn stash_ref(index: usize) -> Seq<char> {
    " stash@{"@ + decimal_of(index as nat) + "}"@
}

pub open spec fn stash_start(action: StashAction, path: Seq<char>) -> MoveView {
    match action {
        StashAction::List => asking(WaitView::Stashes, RequestView::Stashes(path)),
        StashAction::Save { message } => doing(
            RequestView::StashSave { path, message: message@ },
            "stash saved"@,
            ""@,
        ),
        StashAction::Pop { index } => doing(
            RequestView::StashPop { path, index },
            "popped"@,
            stash_ref(index),
        ),
        StashAction::Drop { index } => doing(
            RequestView::StashDrop { path, index },
            "dropped"@,
            stash_ref(index),
        ),
    }
}

pub open spec fn remote_start(action: RemoteAction, path: Seq<char>) -> MoveView {
    match action {
        RemoteAction::List => asking(WaitView::Remotes, RequestView::Remotes(path)),
        RemoteAction::Add { name, url } => doing(
            RequestView::AddRemote { path, name: name@, url: url@ },
            "added remote"@,
            " "@ + name@ + " -> "@ + url@,
        ),
        RemoteAction::Remove { name } => doing(
            RequestView::RemoveRemote { path, name: name@ },
            "removed remote"@,
            " "@ + name@,
        ),
        RemoteAction::Rename { old, new } => doing(
            RequestView::RenameRemote { path, old: old@, new: new@ },
            "renamed remote"@,
            " "@ + old@ + " -> "@ + new@,
        ),
    }
}

/// What the search for a repository has come to.
pub open spec fn after_resolve(job: Job, step: ResolveStepView) -> MoveView {
    match step {
        ResolveStepView::Ask(s, r) => asking(
            WaitView::Resolving(s, job),
            RequestView::Resolve(r),
        ),
        ResolveStepView::Failed(e) => failing(e),
        ResolveStepView::Found(path) => job_start(job, path),
    }
}

fn spaced(s: &str) -> (r: String)
    ensures
        r@ == " "@ + s@,
{
    text::copy(" ").concat(s)
}

fn start_doing(request: Request, what: &str, rest: String) -> (r: Move)
    ensures
        r@ == doing(request@, what@, rest@),
{
    ask(Wait::Did { what: text::copy(what), rest }, request)
}

fn start_branch(action: BranchAction, path: String) -> (r: Move)
    ensures
        r@ == branch_start(action, path@),
{
    match action {
        BranchAction::List => ask(Wait::Branches, Request::Branches(path)),
        BranchAction::Create { name } => {
            let rest = spaced(name.as_str());
            start_doing(Request::CreateBranch { path, name }, "created branch", rest)
        },
        BranchAction::Checkout { name } => {
            let rest = spaced(name.as_str());
            start_doing(Request::Checkout { path, name }, "checked out", rest)
        },
        BranchAction::Delete { name } => {
            let rest = spaced(name.as_str());
            start_doing(Request::DeleteBranch { path, name }, "deleted", rest)
        },
        BranchAction::Merge { name } => ask(
            Wait::Merged { name: name.clone() },
            Request::Merge { path, name },
        ),
    }
}

fn stash_name(index: usize) -> (r: String)
    ensures
        r@ == stash_ref(index),
{
    let n = text::decimal(index as u64);
    text::copy(" stash@{").concat(n.as_str()).concat("}")
}

fn start_stash(action: StashAction, path: String) -> (r: Move)
    ensures
        r@ == stash_start(action, path@),
{
    match action {
        StashAction::List => ask(Wait::Stashes, Request::Stashes(path)),
        StashAction::Save { message } => start_doing(
            Request::StashSave { path, message },
            "stash saved",
            text::copy(""),
        ),
        StashAction::Pop { index } => start_doing(
            Request::StashPop { path, index },
            "popped",
            stash_name(index),
        ),
        StashAction::Drop { index } => start_doing(
            Request::StashDrop { path, index },
            "dropped",
            stash_name(index),
        ),
    }
}

fn start_remote(action: RemoteAction, path: String) -> (r: Move)
    ensures
        r@ == remote_start(action, path@),
{
    match action {
        RemoteAction::List => ask(Wait::Remotes, Request::Remotes(path)),
        RemoteAction::Add { name, url } => {
            let rest = spaced(name.as_str()).concat(" -> ").concat(url.as_str());
            start_doing(Request::AddRemote { path, name, url }, "added remote", rest)
        },
        RemoteAction::Remove { name } => {
            let rest = spaced(name.as_str());
            start_doing(Request::RemoveRemote { path, name }, "removed remote", rest)
        },
        RemoteAction::Rename { old, new } => {
            let rest = spaced(old.as_str()).concat(" -> ").concat(new.as_str());
            start_doing(Request::RenameRemote { path, old, new }, "renamed remote", rest)
        },
    }
}

fn start_stage(add: bool, all: bool, paths: Vec<String>, path: String) -> (r: Move)
    ensures
        r@ == job_start(Job::Stage { add, all, paths }, path@),
{
    let wait = Wait::Staged { path: path.clone() };
    if all {
        if add {
            ask(wait, Request::StageAll(path))
        } else {
            ask(wait, Request::UnstageAll(path))
        }
    } else if paths.len() == 0 {
        fail(AppError::msg("Specify file paths, or pass --all"))
    } else if add {
        ask(wait, Request::StageFiles { path, files: paths })
    } else {
        ask(wait, Request::UnstageFiles { path, files: paths })
    }
}

fn start_job(job: Job, path: String) -> (r: Move)
    ensures
        r@ == job_start(job, path@),
{
    match job {
        Job::Status => ask(Wait::Info, Request::Info(path)),
        Job::Push { repo } => ask(
            Wait::Pushed { path: path.clone(), repo },
            Request::Operate(Op::Push, path),
        ),
        Job::Log { count, file } => match file {
            Some(file) => ask(Wait::Commits, Request::FileHistory { path, file, count }),
            None => ask(Wait::Commits, Request::Log { path, count }),
        },
        Job::Show { commit } => ask(
            Wait::ShownFiles { path: path.clone(), commit: commit.clone() },
            Request::CommitFiles { path, commit },
        ),
        Job::Diff { staged, file } => match file {
            Some(file) => ask(Wait::Diff, Request::FileDiff { path, file, staged }),
            None => ask(Wait::Diff, Request::WorkdirDiff { path, staged }),
        },
        Job::Stage { add, all, paths } => start_stage(add, all, paths, path),
        Job::Commit { message } => ask(
            Wait::Committed { message: message.clone() },
            Request::Commit { path, message },
        ),
        Job::Squash { count, message } => ask(
            Wait::Squashed { count },
            Request::Squash { path, count, message },
        ),
        Job::Branch(action) => start_branch(action, path),
        Job::Stash(action) => start_stash(action, path),
        Job::Remote(action) => start_remote(action, path),
        Job::Profile { set_name, set_email } => if set_name.is_some() || set_email.is_some() {
            ask(
                Wait::ProfileRead { path: path.clone(), set_name, set_email },
                Request::Profile(path),
            )
        } else {
            ask(Wait::Profile, Request::Profile(path))
        },
        Job::Readme => ask(Wait::Readme, Request::Readme(path)),
        Job::Pr => ask(Wait::Page, Request::Page(path)),
    }
}

fn resolve_go_on(job: Job, step: ResolveStep) -> (r: Move)
    ensures
        r@ == after_resolve(job, step@),
{
    match step {
        ResolveStep::Ask(s, r) => ask(Wait::Resolving(s, job), Request::Resolve(r)),
        ResolveStep::Failed(e) => fail(e),
        ResolveStep::Found(path) => start_job(job, path),
    }
}

// ── Dispatch ─────────────────────────────

pub open spec fn listed_branches(a: Option<BranchAction>) -> BranchAction {
    match a {
        Some(b) => b,
        None => BranchAction::List,
    }
}

pub open spec fn listed_stashes(a: Option<StashAction>) -> StashAction {
    match a {
        Some(b) => b,
        None => StashAction::List,
    }
}

pub open spec fn listed_remotes(a: Option<RemoteAction>) -> RemoteAction {
    match a {
        Some(b) => b,
        None => RemoteAction::List,
    }
}

/// The repository that a command is about, and what it does there.
pub open spec fn job_of(command: Command) -> Option<(Seq<char>, Job)> {
    match command {
        Command::Status(a) => Some((a.repo@, Job::Status)),
        Command::Push(a) => Some((a.repo@, Job::Push { repo: a.repo })),
        Command::Log(a) => Some((a.repo@, Job::Log { count: a.count, file: a.file })),
        Command::Show(a) => Some((a.repo@, Job::Show { commit: a.commit })),
        Command::Diff(a) => Some((a.repo@, Job::Diff { staged: a.staged, file: a.path })),
        Command::Add(a) => Some(
            (a.repo@, Job::Stage { add: true, all: a.all, paths: a.paths }),
        ),
        Command::Reset(a) => Some(
            (a.repo@, Job::Stage { add: false, all: a.all, paths: a.paths }),
        ),
        Command::Commit(a) => Some((a.repo@, Job::Commit { message: a.message })),
        Command::Squash(a) => Some(
            (a.repo@, Job::Squash { count: a.count, message: a.message }),
        ),
        Command::Branch(c) => Some((c.repo@, Job::Branch(listed_branches(c.action)))),
        Command::Stash(c) => Some((c.repo@, Job::Stash(listed_stashes(c.action)))),
        Command::Remote(c) => Some((c.repo@, Job::Remote(listed_remotes(c.action)))),
        Command::Profile(a) => Some(
            (a.repo@, Job::Profile { set_name: a.set_name, set_email: a.set_email }),
        ),
        Command::Readme(a) => Some((a.repo@, Job::Readme)),
        Command::Pr(a) => Some((a.repo@, Job::Pr)),
        _ => None,
    }
}

pub open spec fn config_start(json: bool, action: ConfigAction) -> MoveView {
    match action {
        ConfigAction::Show => asking(WaitView::ConfigShown, RequestView::LoadConfig),
        ConfigAction::Roots { action } => match action {
            RootsAction::List => asking(WaitView::RootsListed, RequestView::LoadConfig),
            RootsAction::Add { path } => asking(
                WaitView::RootAdded { path: path@ },
                RequestView::LoadConfig,
            ),
            RootsAction::Remove { path } => asking(
                WaitView::RootRemoved { path: path@ },
                RequestView::LoadConfig,
            ),
            RootsAction::Replace { paths } => ending(
                seq![
                    SayView::SaveConfig(texts(paths@)),
                    emitted(json, DataView::Did { what: "scan roots updated"@, rest: ""@ }),
                ],
            ),
        },
    }
}

/// How a command starts. A fetch of no repository in particular is one of all
/// known ones.
pub open spec fn command_start(json: bool, command: Command, home: Option<Seq<char>>) -> MoveView {
    match command {
        Command::Scan => asking(WaitView::Roots(None), RequestView::ReadRoots),
        Command::List(args) => if args.refresh {
            asking(WaitView::Roots(Some(args)), RequestView::ReadRoots)
        } else {
            asking(WaitView::Cached { args, refreshed: false }, RequestView::LoadCache)
        },
        Command::Fetch(args) => after_many(
            json,
            Op::Fetch,
            search_many(texts(args.repos@), args.all || args.repos@.len() == 0, home),
        ),
        Command::Pull(args) => after_many(
            json,
            Op::Pull,
            search_many(texts(args.repos@), args.all, home),
        ),
        Command::Config(cmd) => config_start(json, cmd.action),
        Command::Tui => asking(WaitView::Tui, RequestView::Tui),
        _ => match job_of(command) {
            Some(j) => after_resolve(j.1, search_for(j.0, home)),
            None => ending(seq![]),
        },
    }
}

/// A running command.
pub struct Task {
    pub ctx: Ctx,
    pub wait: Wait,
}

/// What a command says, and how it goes on.
pub struct Turn {
    pub says: Vec<Say>,
    pub step: Step,
}

/// The task and its turn are those of a move.
pub open spec fn made(t: Task, turn: Turn, m: MoveView) -> bool {
    t.wait@ == m.wait && says_view(turn.says@) == m.says && turn.step@ == m.step
}

fn start_config(json: bool, action: ConfigAction) -> (r: Move)
    ensures
        r@ == config_start(json, action),
{
    match action {
        ConfigAction::Show => ask(Wait::ConfigShown, Request::LoadConfig),
        ConfigAction::Roots { action } => match action {
            RootsAction::List => ask(Wait::RootsListed, Request::LoadConfig),
            RootsAction::Add { path } => ask(Wait::RootAdded { path }, Request::LoadConfig),
            RootsAction::Remove { path } => ask(Wait::RootRemoved { path }, Request::LoadConfig),
            RootsAction::Replace { paths } => {
                let d = Data::Did {
                    what: text::copy("scan roots updated"),
                    rest: text::copy(""),
                };
                end(save_config(paths, emit(json, d)))
            },
        },
    }
}

fn save_config(roots: Vec<String>, then_say: Say) -> (r: Vec<Say>)
    ensures
        says_view(r@) == seq![SayView::SaveConfig(texts(roots@)), then_say@],
{
    let mut says: Vec<Say> = Vec::new();
    says.push(Say::SaveConfig(roots));
    says.push(then_say);
    assert(says_view(says@) =~= seq![SayView::SaveConfig(texts(roots@)), then_say@]);
    says
}

fn start_many(json: bool, op: Op, args: BulkArgs, home: Option<&str>) -> (r: Move)
    ensures
        r@ == after_many(
            json,
            op,
            search_many(texts(args.repos@), args.all, opt_str_view(home)),
        ),
{
    let step = resolver::resolve_many(args.repos, args.all, home);
    many_go_on(json, op, step)
}

fn start_on(repo: String, job: Job, home: Option<&str>) -> (r: Move)
    ensures
        r@ == after_resolve(job, search_for(repo@, opt_str_view(home))),
{
    let step = resolver::resolve(repo.as_str(), home);
    resolve_go_on(job, step)
}

/// Starts the command that the user gave.
pub fn dispatch(cli: Cli, home: Option<&str>) -> (r: (Task, Turn))
    ensures
        r.0.ctx.json == cli.json,
        made(r.0, r.1, command_start(cli.json, cli.command, opt_str_view(home))),
{
    let json = cli.json;
    let m = match cli.command {
        Command::Scan => ask(Wait::Roots(None), Request::ReadRoots),
        Command::List(args) => if args.refresh {
            ask(Wait::Roots(Some(args)), Request::ReadRoots)
        } else {
            ask(Wait::Cached { args, refreshed: false }, Request::LoadCache)
        },
        Command::Status(a) => start_on(a.repo, Job::Status, home),
        Command::Fetch(a) => {
            let all = a.all || a.repos.len() == 0;
            start_many(json, Op::Fetch, BulkArgs { repos: a.repos, all }, home)
        },
        Command::Pull(a) => start_many(json, Op::Pull, a, home),
        Command::Push(a) => {
            let repo = a.repo.clone();
            start_on(repo, Job::Push { repo: a.repo }, home)
        },
        Command::Log(a) => start_on(a.repo, Job::Log { count: a.count, file: a.file }, home),
        Command::Show(a) => start_on(a.repo, Job::Show { commit: a.commit }, home),
        Command::Diff(a) => start_on(a.repo, Job::Diff { staged: a.staged, file: a.path }, home),
        Command::Add(a) => start_on(
            a.repo,
            Job::Stage { add: true, all: a.all, paths: a.paths },
            home,
        ),
        Command::Reset(a) => start_on(
            a.repo,
            Job::Stage { add: false, all: a.all, paths: a.paths },
            home,
        ),
        Command::Commit(a) => start_on(a.repo, Job::Commit { message: a.message }, home),
        Command::Squash(a) => start_on(
            a.repo,
            Job::Squash { count: a.count, message: a.message },
            home,
        ),
        Command::Branch(c) => start_on(
            c.repo,
            Job::Branch(
                match c.action {
                    Some(b) => b,
                    None => BranchAction::List,
                },
            ),
            home,
        ),
        Command::Stash(c) => start_on(
            c.repo,
            Job::Stash(
                match c.action {
                    Some(b) => b,
                    None => StashAction::List,
                },
            ),
            home,
        ),
        Command::Remote(c) => start_on(
            c.repo,
            Job::Remote(
                match c.action {
                    Some(b) => b,
                    None => RemoteAction::List,
                },
            ),
            home,
        ),
        Command::Profile(a) => start_on(
            a.repo,
            Job::Profile { set_name: a.set_name, set_email: a.set_email },
            home,
        ),
        Command::Readme(a) => start_on(a.repo, Job::Readme, home),
        Command::Pr(a) => start_on(a.repo, Job::Pr, home),
        Command::Config(cmd) => start_config(json, cmd.action),
        Command::Tui => ask(Wait::Tui, Request::Tui),
    };
    (Task { ctx: Ctx { json }, wait: m.wait }, Turn { says: m.says, step: m.step })
}

// ── Going on ─────────────────────────────

/// The scan starts, unless there is nothing to scan.
pub open spec fn scan_start(
    json: bool,
    after: Option<ListArgs>,
    roots: Seq<Seq<char>>,
) -> MoveView {
    if roots.len() == 0 {
        failing(AppErrorView::General(no_roots_text()))
    } else {
        after_saying(
            if json {
                seq![]
            } else {
                seq![SayView::Notice(NoticeView::Scanning(roots))]
            },
            asking(WaitView::Scanned(after), RequestView::Scan(roots)),
        )
    }
}

/// What a scan found is kept and shown; a listing goes on with it.
pub open spec fn scan_end(json: bool, after: Option<ListArgs>, repos: Seq<RepoInfo>) -> MoveView {
    let says = seq![SayView::SaveCache(repos), emitted(json, DataView::Repos(repos))];
    match after {
        None => ending(says),
        Some(args) => after_saying(
            says,
            asking(WaitView::Cached { args, refreshed: true }, RequestView::LoadCache),
        ),
    }
}

/// The listing, with a remark where it is empty and no scan came before it.
pub open spec fn list_end(
    json: bool,
    args: ListArgs,
    refreshed: bool,
    repos: Seq<RepoInfo>,
) -> MoveView {
    let found = listing(args, repos);
    ending(
        (if found.len() == 0 && !json && !refreshed {
            seq![SayView::Notice(NoticeView::NothingCached(opt_view(args.search)))]
        } else {
            seq![]
        }) + seq![emitted(json, DataView::Repos(found))],
    )
}

/// The end of a push: its repository is brought up to date where it is known.
pub open spec fn push_end(
    json: bool,
    repo: Seq<char>,
    error: Option<Seq<char>>,
    updated: RepoInfo,
    repos: Seq<RepoInfo>,
) -> MoveView {
    ending(
        (if place_of(repos, updated.path@) is Some {
            seq![SayView::SaveCache(updated_in(repos, updated.path@, updated))]
        } else {
            seq![]
        }) + (if json {
            seq![SayView::Json(DataView::Pushed { repo, error })]
        } else {
            seq![]
        }),
    )
}

/// One of several repositories is done, and the next one follows.
pub open spec fn bulk_next(
    json: bool,
    op: Op,
    targets: Seq<(Seq<char>, Seq<char>)>,
    at: int,
    results: Seq<BulkResultView>,
    error: Option<Seq<char>>,
    status: RepoInfo,
) -> MoveView {
    after_saying(
        remarked(json, DataView::Outcome { op, name: targets[at].0, error }),
        bulk_from(
            json,
            op,
            targets,
            at + 1,
            results.push(
                BulkResultView { name: targets[at].0, path: targets[at].1, error, status },
            ),
        ),
    )
}

/// The end of an operation on several repositories.
pub open spec fn bulk_end(json: bool, results: Seq<BulkResultView>, repos: Seq<RepoInfo>) -> MoveView {
    ending(
        seq![SayView::SaveCache(refreshed_with(repos, results))] + (if json {
            seq![SayView::Json(DataView::Bulk(results))]
        } else {
            seq![]
        }),
    )
}

/// A root is added, unless it is there already.
pub open spec fn root_added(
    json: bool,
    path: Seq<char>,
    roots: Seq<Seq<char>>,
    canonical: Option<Seq<char>>,
) -> MoveView {
    let root = match canonical {
        Some(c) => c,
        None => path,
    };
    ending(
        (if roots.contains(root) {
            seq![]
        } else {
            seq![SayView::SaveConfig(roots.push(root))]
        }) + seq![emitted(json, DataView::Did { what: "added root"@, rest: " "@ + root })],
    )
}

/// The texts other than `s`.
pub open spec fn without_text(v: Seq<Seq<char>>, s: Seq<char>) -> Seq<Seq<char>> {
    v.filter(|t: Seq<char>| t != s)
}

/// A root is removed wherever it stands.
pub open spec fn root_removed(json: bool, path: Seq<char>, roots: Seq<Seq<char>>) -> MoveView {
    let left = without_text(roots, path);
    ending(
        seq![
            SayView::SaveConfig(left),
            emitted(
                json,
                if left.len() < roots.len() {
                    DataView::Did { what: "removed root"@, rest: " "@ + path }
                } else {
                    DataView::Remark("(not found) "@ + path)
                },
            ),
        ],
    )
}

/// The profile is set, to what was asked for and else to what it was.
pub open spec fn profile_set(
    path: Seq<char>,
    set_name: Option<Seq<char>>,
    set_email: Option<Seq<char>>,
    name: Seq<char>,
    email: Seq<char>,
) -> MoveView {
    asking(
        WaitView::ProfileSet { path },
        RequestView::SetProfile {
            path,
            name: match set_name {
                Some(n) => n,
                None => name,
            },
            email: match set_email {
                Some(e) => e,
                None => email,
            },
        },
    )
}

/// The reply is one to what the command waits for.
pub open spec fn accepted(wait: WaitView, reply: Reply) -> bool {
    match reply {
        Reply::Failed(_) => !(wait is Over) && (wait matches WaitView::BulkWork {
            op,
            targets,
            at,
            results,
        } ==> 0 <= at < targets.len()),
        Reply::Done => match wait {
            WaitView::Pushed { .. }
            | WaitView::Staged { .. }
            | WaitView::Did { .. }
            | WaitView::ProfileSet { .. }
            | WaitView::Tui => true,
            WaitView::BulkWork { op, targets, at, results } => 0 <= at < targets.len(),
            _ => false,
        },
        Reply::Resolve(r) => match wait {
            WaitView::Resolving(s, job) => s.accepts(r),
            WaitView::ResolvingMany(op, s) => s.accepts(r),
            _ => false,
        },
        Reply::Roots { .. } => wait is Roots,
        Reply::Repos(_) => wait is Scanned || wait is Cached || wait is PushCache
            || wait is BulkCache,
        Reply::Repo(_) => match wait {
            WaitView::Info => true,
            WaitView::PushInfo { .. } => true,
            WaitView::BulkInfo { op, targets, at, results, error } => 0 <= at < targets.len(),
            _ => false,
        },
        Reply::Config(_) => wait is ConfigShown || wait is RootsListed || wait is RootAdded
            || wait is RootRemoved,
        Reply::Canonical(_) => wait is RootPath,
        Reply::Commits(_) => wait is Commits,
        Reply::Files(_) => wait is ShownFiles,
        Reply::Changes(_) => wait is Changes,
        Reply::Branches(_) => wait is Branches,
        Reply::Stashes(_) => wait is Stashes,
        Reply::Remotes(_) => wait is Remotes,
        Reply::Profile(_) => wait is ProfileRead || wait is Profile,
        Reply::Readme(_) => wait is Readme,
        Reply::Text(_) => wait is ShownDiff || wait is Diff || wait is Committed
            || wait is Squashed || wait is Merged || wait is Page,
    }
}

/// What follows a piece of work that failed, or that is done and gave
/// nothing back.
pub open spec fn after_work(json: bool, wait: WaitView, failed: Option<AppErrorView>) -> MoveView {
    let error = match failed {
        Some(e) => Some(e.text()),
        None => None,
    };
    match (wait, failed) {
        (WaitView::Pushed { path, repo }, _) => after_saying(
            remarked(json, DataView::Outcome { op: Op::Push, name: repo, error }),
            asking(WaitView::PushInfo { repo, error }, RequestView::Info(path)),
        ),
        (WaitView::BulkWork { op, targets, at, results }, _) => asking(
            WaitView::BulkInfo { op, targets, at, results, error },
            RequestView::Info(targets[at].1),
        ),
        (WaitView::ProfileRead { path, set_name, set_email }, Some(_)) => profile_set(
            path,
            set_name,
            set_email,
            ""@,
            ""@,
        ),
        (_, Some(e)) => failing(e),
        (WaitView::Staged { path }, None) => asking(
            WaitView::Changes,
            RequestView::Changes(path),
        ),
        (WaitView::Did { what, rest }, None) => ending(
            seq![emitted(json, DataView::Did { what, rest })],
        ),
        (WaitView::ProfileSet { path }, None) => asking(
            WaitView::Profile,
            RequestView::Profile(path),
        ),
        _ => ending(seq![]),
    }
}

/// What follows a text.
pub open spec fn after_text(json: bool, wait: WaitView, s: Seq<char>) -> MoveView {
    match wait {
        WaitView::ShownDiff { commit, files } => ending(
            seq![emitted(json, DataView::Commit { commit, files, diff: s })],
        ),
        WaitView::Committed { message } => ending(
            seq![emitted(json, DataView::Committed { oid: s, message })],
        ),
        WaitView::Squashed { count } => ending(
            seq![emitted(json, DataView::Squashed { oid: s, count })],
        ),
        WaitView::Merged { name } => ending(
            seq![
                emitted(json, DataView::Did { what: "merge"@, rest: " "@ + name + ": "@ + s }),
            ],
        ),
        WaitView::Page => ending(seq![emitted(json, DataView::Page(s))]),
        _ => ending(seq![emitted(json, DataView::Diff(s))]),
    }
}

/// What follows the configuration.
pub open spec fn after_config(json: bool, wait: WaitView, roots: Seq<Seq<char>>) -> MoveView {
    match wait {
        WaitView::RootsListed => ending(seq![emitted(json, DataView::Roots(roots))]),
        WaitView::RootAdded { path } => asking(
            WaitView::RootPath { path, roots },
            RequestView::Canonicalize(path),
        ),
        WaitView::RootRemoved { path } => root_removed(json, path, roots),
        _ => ending(seq![emitted(json, DataView::Config(roots))]),
    }
}

/// What follows the known repositories, or those that a scan found.
pub open spec fn after_repos(json: bool, wait: WaitView, repos: Seq<RepoInfo>) -> MoveView {
    match wait {
        WaitView::Scanned(after) => scan_end(json, after, repos),
        WaitView::Cached { args, refreshed } => list_end(json, args, refreshed, repos),
        WaitView::PushCache { repo, error, updated } => push_end(
            json,
            repo,
            error,
            updated,
            repos,
        ),
        WaitView::BulkCache { results } => bulk_end(json, results, repos),
        _ => ending(seq![]),
    }
}

/// What follows the state of a repository.
pub open spec fn after_repo(json: bool, wait: WaitView, info: RepoInfo) -> MoveView {
    match wait {
        WaitView::PushInfo { repo, error } => asking(
            WaitView::PushCache { repo, error, updated: info },
            RequestView::LoadCache,
        ),
        WaitView::BulkInfo { op, targets, at, results, error } => bulk_next(
            json,
            op,
            targets,
            at,
            results,
            error,
            info,
        ),
        _ => ending(seq![emitted(json, DataView::Repo(info))]),
    }
}

/// What a reply leads to.
pub open spec fn move_after(json: bool, wait: WaitView, reply: Reply, home: Option<Seq<char>>) -> MoveView {
    match reply {
        Reply::Failed(e) => after_work(json, wait, Some(e@)),
        Reply::Done => after_work(json, wait, None),
        Reply::Resolve(r) => match wait {
            WaitView::Resolving(s, job) => after_resolve(job, s.next(r)),
            WaitView::ResolvingMany(op, s) => after_many(json, op, s.next(r, home)),
            _ => ending(seq![]),
        },
        Reply::Roots { config, home: h, default_is_dir } => match wait {
            WaitView::Roots(after) => scan_start(
                json,
                after,
                roots_to_scan(texts(config.scan_roots@), opt_view(h), default_is_dir),
            ),
            _ => ending(seq![]),
        },
        Reply::Repos(v) => after_repos(json, wait, v@),
        Reply::Repo(info) => after_repo(json, wait, info),
        Reply::Config(c) => after_config(json, wait, texts(c.scan_roots@)),
        Reply::Canonical(c) => match wait {
            WaitView::RootPath { path, roots } => root_added(json, path, roots, opt_view(c)),
            _ => ending(seq![]),
        },
        Reply::Commits(v) => ending(seq![emitted(json, DataView::Commits(v@))]),
        Reply::Files(v) => match wait {
            WaitView::ShownFiles { path, commit } => asking(
                WaitView::ShownDiff { commit, files: v@ },
                RequestView::CommitDiff { path, commit },
            ),
            _ => ending(seq![]),
        },
        Reply::Changes(v) => ending(seq![emitted(json, DataView::Changes(v@))]),
        Reply::Branches(v) => ending(seq![emitted(json, DataView::Branches(v@))]),
        Reply::Stashes(v) => ending(seq![emitted(json, DataView::Stashes(v@))]),
        Reply::Remotes(v) => ending(seq![emitted(json, DataView::Remotes(v@))]),
        Reply::Profile(p) => match wait {
            WaitView::ProfileRead { path, set_name, set_email } => profile_set(
                path,
                set_name,
                set_email,
                p.name@,
                p.email@,
            ),
            _ => ending(seq![emitted(json, DataView::Profile(p))]),
        },
        Reply::Readme(c) => ending(seq![emitted(json, DataView::Readme(opt_view(c)))]),
        Reply::Text(s) => after_text(json, wait, s@),
    }
}

fn start_scan(json: bool, after: Option<ListArgs>, roots: Vec<String>) -> (r: Move)
    ensures
        r@ == scan_start(json, after, texts(roots@)),
{
    if roots.len() == 0 {
        return fail(
            AppError::msg(
                "No scan roots configured and ~/dev is not present.\nAdd one with: gitatlas config roots add <path>",
            ),
        );
    }
    let mut says: Vec<Say> = Vec::new();
    if !json {
        let mut named: Vec<String> = Vec::new();
        let mut i: usize = 0;
        assert(texts(named@) =~= texts(roots@).take(0));
        while i < roots.len()
            invariant
                i <= roots@.len(),
                texts(named@) == texts(roots@).take(i as int),
            decreases roots@.len() - i,
        {
            proof {
                text::texts_push(named@, roots@[i as int]);
                assert(texts(roots@).take(i + 1) =~= texts(roots@).take(i as int).push(
                    texts(roots@)[i as int],
                ));
            }
            named.push(roots[i].clone());
            i = i + 1;
        }
        assert(texts(roots@).take(i as int) =~= texts(roots@));
        says.push(Say::Notice(Notice::Scanning(named)));
    }
    assert(says_view(says@) =~= if json {
        seq![]
    } else {
        seq![SayView::Notice(NoticeView::Scanning(texts(roots@)))]
    });
    say_first(says, ask(Wait::Scanned(after), Request::Scan(roots)))
}

fn copy_repos(repos: &Vec<RepoInfo>) -> (r: Vec<RepoInfo>)
    ensures
        r@ == repos@,
{
    let mut out: Vec<RepoInfo> = Vec::new();
    let mut i: usize = 0;
    while i < repos.len()
        invariant
            i <= repos@.len(),
            out@ == repos@.take(i as int),
        decreases repos@.len() - i,
    {
        out.push(repos[i].clone());
        i = i + 1;
        assert(repos@.take(i as int) =~= repos@.take(i - 1).push(repos@[i - 1]));
    }
    assert(repos@.take(i as int) =~= repos@);
    out
}

fn end_scan(json: bool, after: Option<ListArgs>, repos: Vec<RepoInfo>) -> (r: Move)
    ensures
        r@ == scan_end(json, after, repos@),
{
    let kept = copy_repos(&repos);
    let mut says: Vec<Say> = Vec::new();
    says.push(Say::SaveCache(kept));
    says.push(emit(json, Data::Repos(repos)));
    assert(says_view(says@) =~= seq![
        SayView::SaveCache(repos@),
        emitted(json, DataView::Repos(repos@)),
    ]);
    match after {
        None => end(says),
        Some(args) => say_first(
            says,
            ask(Wait::Cached { args, refreshed: true }, Request::LoadCache),
        ),
    }
}

fn end_list(json: bool, args: ListArgs, refreshed: bool, repos: Vec<RepoInfo>) -> (r: Move)
    ensures
        r@ == list_end(json, args, refreshed, repos@),
{
    let found = filter_cache(&args, repos);
    let mut says: Vec<Say> = Vec::new();
    if found.len() == 0 && !json && !refreshed {
        says.push(Say::Notice(Notice::NothingCached(args.search)));
    }
    says.push(emit(json, Data::Repos(found)));
    assert(says_view(says@) =~= list_end(json, args, refreshed, repos@).says);
    end(says)
}

fn end_push(
    json: bool,
    repo: String,
    error: Option<String>,
    updated: RepoInfo,
    repos: Vec<RepoInfo>,
) -> (r: Move)
    ensures
        r@ == push_end(json, repo@, opt_view(error), updated, repos@),
{
    let mut says: Vec<Say> = Vec::new();
    let mut kept = repos;
    if let Some(k) = find_place(&kept, updated.path.as_str()) {
        kept.set(k, updated);
        says.push(Say::SaveCache(kept));
    }
    if json {
        says.push(Say::Json(Data::Pushed { repo, error }));
    }
    assert(says_view(says@) =~= push_end(json, repo@, opt_view(error), updated, repos@).says);
    end(says)
}

fn next_bulk(
    json: bool,
    op: Op,
    targets: Vec<Target>,
    at: usize,
    results: Vec<BulkResult>,
    error: Option<String>,
    status: RepoInfo,
) -> (r: Move)
    requires
        at < targets@.len(),
    ensures
        r@ == bulk_next(
            json,
            op,
            targets_view(targets@),
            at as int,
            results_view(results@),
            opt_view(error),
            status,
        ),
{
    assert(targets_view(targets@)[at as int] == targets@[at as int]@);
    let count: usize = targets.len();
    assert(at < count);
    let shown_error = match &error {
        Some(e) => Some(e.clone()),
        None => None,
    };
    let says = remark(
        json,
        Data::Outcome { op, name: targets[at].name.clone(), error: shown_error },
    );
    let mut results = results;
    let ghost before = results_view(results@);
    let result = BulkResult {
        name: targets[at].name.clone(),
        path: targets[at].path.clone(),
        error,
        status,
    };
    results.push(result);
    assert(results_view(results@) =~= before.push(result@));
    say_first(says, bulk_go_on(json, op, targets, at + 1, results))
}

fn end_bulk(json: bool, results: Vec<BulkResult>, repos: Vec<RepoInfo>) -> (r: Move)
    ensures
        r@ == bulk_end(json, results_view(results@), repos@),
{
    let kept = refresh_cache_for(repos, &results);
    let mut says: Vec<Say> = Vec::new();
    says.push(Say::SaveCache(kept));
    if json {
        says.push(Say::Json(Data::Bulk(results)));
    }
    assert(says_view(says@) =~= bulk_end(json, results_view(results@), repos@).says);
    end(says)
}

fn has_root(roots: &Vec<String>, root: &str) -> (r: bool)
    ensures
        r == texts(roots@).contains(root@),
{
    let mut i: usize = 0;
    while i < roots.len()
        invariant
            i <= roots@.len(),
            forall|j: int| 0 <= j < i ==> #[trigger] texts(roots@)[j] != root@,
        decreases roots@.len() - i,
    {
        assert(texts(roots@)[i as int] == roots@[i as int]@);
        if text::same(roots[i].as_str(), root) {
            return true;
        }
        i = i + 1;
    }
    false
}

fn add_root(json: bool, path: String, roots: Vec<String>, canonical: Option<String>) -> (r: Move)
    ensures
        r@ == root_added(json, path@, texts(roots@), opt_view(canonical)),
{
    let root = match canonical {
        Some(c) => c,
        None => path,
    };
    let rest = spaced(root.as_str());
    let done = emit(json, Data::Did { what: text::copy("added root"), rest });
    if has_root(&roots, root.as_str()) {
        assert(Seq::<SayView>::empty() + seq![done@] =~= seq![done@]);
        end_with(done)
    } else {
        let mut more = roots;
        proof {
            text::texts_push(more@, root);
        }
        more.push(root);
        assert(seq![SayView::SaveConfig(texts(more@))] + seq![done@] =~= seq![
            SayView::SaveConfig(texts(more@)),
            done@,
        ]);
        end(save_config(more, done))
    }
}

fn remove_root(json: bool, path: String, roots: Vec<String>) -> (r: Move)
    ensures
        r@ == root_removed(json, path@, texts(roots@)),
{
    let ghost all = texts(roots@);
    let ghost f = |t: Seq<char>| t != path@;
    let mut left: Vec<String> = Vec::new();
    let mut i: usize = 0;
    proof {
        reveal(Seq::filter);
        assert(all.take(0) =~= seq![]);
        assert(texts(left@) =~= all.take(0).filter(f));
    }
    while i < roots.len()
        invariant
            all == texts(roots@),
            f == (|t: Seq<char>| t != path@),
            i <= roots@.len(),
            texts(left@) == all.take(i as int).filter(f),
        decreases roots@.len() - i,
    {
        proof {
            reveal(Seq::filter);
            assert(all.take(i + 1).drop_last() =~= all.take(i as int));
            assert(all.take(i + 1).last() == roots@[i as int]@);
        }
        if !text::same(roots[i].as_str(), path.as_str()) {
            proof {
                text::texts_push(left@, roots@[i as int]);
            }
            left.push(roots[i].clone());
        }
        i = i + 1;
    }
    assert(all.take(i as int) =~= all);
    let d = if left.len() < roots.len() {
        Data::Did { what: text::copy("removed root"), rest: spaced(path.as_str()) }
    } else {
        Data::Remark(text::copy("(not found) ").concat(path.as_str()))
    };
    end(save_config(left, emit(json, d)))
}

fn set_profile(
    path: String,
    set_name: Option<String>,
    set_email: Option<String>,
    name: String,
    email: String,
) -> (r: Move)
    ensures
        r@ == profile_set(path@, opt_view(set_name), opt_view(set_email), name@, email@),
{
    let name = match set_name {
        Some(n) => n,
        None => name,
    };
    let email = match set_email {
        Some(e) => e,
        None => email,
    };
    ask(Wait::ProfileSet { path: path.clone() }, Request::SetProfile { path, name, email })
}

pub open spec fn opt_error(e: Option<AppError>) -> Option<AppErrorView> {
    match e {
        Some(x) => Some(x@),
        None => None,
    }
}

fn go_on_after_work(json: bool, wait: Wait, failed: Option<AppError>) -> (r: Move)
    requires
        match failed {
            Some(e) => accepted(wait@, Reply::Failed(e)),
            None => accepted(wait@, Reply::Done),
        },
    ensures
        r@ == after_work(json, wait@, opt_error(failed)),
{
    match wait {
        Wait::Pushed { path, repo } => {
            let error = match &failed {
                Some(e) => Some(e.text()),
                None => None,
            };
            let kept = match &error {
                Some(e) => Some(e.clone()),
                None => None,
            };
            let says = remark(json, Data::Outcome { op: Op::Push, name: repo.clone(), error });
            say_first(says, ask(Wait::PushInfo { repo, error: kept }, Request::Info(path)))
        },
        Wait::BulkWork { op, targets, at, results } => {
            assert(targets_view(targets@)[at as int] == targets@[at as int]@);
            let path = targets[at].path.clone();
            let error = match &failed {
                Some(e) => Some(e.text()),
                None => None,
            };
            ask(Wait::BulkInfo { op, targets, at, results, error }, Request::Info(path))
        },
        Wait::ProfileRead { path, set_name, set_email } => match failed {
            Some(_) => set_profile(path, set_name, set_email, text::copy(""), text::copy("")),
            None => end(Vec::new()),
        },
        other => match failed {
            Some(e) => fail(e),
            None => match other {
                Wait::Staged { path } => ask(Wait::Changes, Request::Changes(path)),
                Wait::Did { what, rest } => end_with(emit(json, Data::Did { what, rest })),
                Wait::ProfileSet { path } => ask(Wait::Profile, Request::Profile(path)),
                _ => nothing_more(),
            },
        },
    }
}

fn nothing_more() -> (r: Move)
    ensures
        r@ == ending(seq![]),
{
    let says: Vec<Say> = Vec::new();
    assert(says_view(says@) =~= seq![]);
    end(says)
}

fn go_on_after_text(json: bool, wait: Wait, s: String) -> (r: Move)
    ensures
        r@ == after_text(json, wait@, s@),
{
    match wait {
        Wait::ShownDiff { commit, files } => end_with(
            emit(json, Data::Commit { commit, files, diff: s }),
        ),
        Wait::Committed { message } => end_with(emit(json, Data::Committed { oid: s, message })),
        Wait::Squashed { count } => end_with(emit(json, Data::Squashed { oid: s, count })),
        Wait::Merged { name } => {
            let rest = spaced(name.as_str()).concat(": ").concat(s.as_str());
            end_with(emit(json, Data::Did { what: text::copy("merge"), rest }))
        },
        Wait::Page => end_with(emit(json, Data::Page(s))),
        _ => end_with(emit(json, Data::Diff(s))),
    }
}

fn go_on_after_config(json: bool, wait: Wait, config: Config) -> (r: Move)
    ensures
        r@ == after_config(json, wait@, texts(config.scan_roots@)),
{
    match wait {
        Wait::RootsListed => end_with(emit(json, Data::Roots(config.scan_roots))),
        Wait::RootAdded { path } => {
            let asked = path.clone();
            ask(
                Wait::RootPath { path, roots: config.scan_roots },
                Request::Canonicalize(asked),
            )
        },
        Wait::RootRemoved { path } => remove_root(json, path, config.scan_roots),
        _ => end_with(emit(json, Data::Config(config.scan_roots))),
    }
}

fn go_on_after_repos(json: bool, wait: Wait, repos: Vec<RepoInfo>) -> (r: Move)
    ensures
        r@ == after_repos(json, wait@, repos@),
{
    match wait {
        Wait::Scanned(after) => end_scan(json, after, repos),
        Wait::Cached { args, refreshed } => end_list(json, args, refreshed, repos),
        Wait::PushCache { repo, error, updated } => end_push(json, repo, error, updated, repos),
        Wait::BulkCache { results } => end_bulk(json, results, repos),
        _ => nothing_more(),
    }
}

fn go_on_after_repo(json: bool, wait: Wait, info: RepoInfo) -> (r: Move)
    requires
        accepted(wait@, Reply::Repo(info)),
    ensures
        r@ == after_repo(json, wait@, info),
{
    match wait {
        Wait::PushInfo { repo, error } => ask(
            Wait::PushCache { repo, error, updated: info },
            Request::LoadCache,
        ),
        Wait::BulkInfo { op, targets, at, results, error } => next_bulk(
            json,
            op,
            targets,
            at,
            results,
            error,
            info,
        ),
        _ => end_with(emit(json, Data::Repo(info))),
    }
}

impl Task {
    /// Whether the reply is one to what the command waits for.
    pub fn accepts(&self, reply: &Reply) -> (r: bool)
        ensures
            r == accepted(self.wait@, *reply),
    {
        match reply {
            Reply::Failed(_) => match &self.wait {
                Wait::Over => false,
                Wait::BulkWork { op: _, targets, at, results: _ } => *at < targets.len(),
                _ => true,
            },
            Reply::Done => match &self.wait {
                Wait::Pushed { .. }
                | Wait::Staged { .. }
                | Wait::Did { .. }
                | Wait::ProfileSet { .. }
                | Wait::Tui => true,
                Wait::BulkWork { op: _, targets, at, results: _ } => *at < targets.len(),
                _ => false,
            },
            Reply::Resolve(r) => match &self.wait {
                Wait::Resolving(s, _) => s.accepts(r),
                Wait::ResolvingMany(_, s) => s.accepts(r),
                _ => false,
            },
            Reply::Roots { .. } => matches!(self.wait, Wait::Roots(_)),
            Reply::Repos(_) => match &self.wait {
                Wait::Scanned(_)
                | Wait::Cached { .. }
                | Wait::PushCache { .. }
                | Wait::BulkCache { .. } => true,
                _ => false,
            },
            Reply::Repo(_) => match &self.wait {
                Wait::Info => true,
                Wait::PushInfo { .. } => true,
                Wait::BulkInfo { op: _, targets, at, results: _, error: _ } => *at
                    < targets.len(),
                _ => false,
            },
            Reply::Config(_) => match &self.wait {
                Wait::ConfigShown
                | Wait::RootsListed
                | Wait::RootAdded { .. }
                | Wait::RootRemoved { .. } => true,
                _ => false,
            },
            Reply::Canonical(_) => matches!(self.wait, Wait::RootPath { .. }),
            Reply::Commits(_) => matches!(self.wait, Wait::Commits),
            Reply::Files(_) => matches!(self.wait, Wait::ShownFiles { .. }),
            Reply::Changes(_) => matches!(self.wait, Wait::Changes),
            Reply::Branches(_) => matches!(self.wait, Wait::Branches),
            Reply::Stashes(_) => matches!(self.wait, Wait::Stashes),
            Reply::Remotes(_) => matches!(self.wait, Wait::Remotes),
            Reply::Profile(_) => match &self.wait {
                Wait::ProfileRead { .. } | Wait::Profile => true,
                _ => false,
            },
            Reply::Readme(_) => matches!(self.wait, Wait::Readme),
            Reply::Text(_) => match &self.wait {
                Wait::ShownDiff { .. }
                | Wait::Diff
                | Wait::Committed { .. }
                | Wait::Squashed { .. }
                | Wait::Merged { .. }
                | Wait::Page => true,
                _ => false,
            },
        }
    }

    /// Goes on after a reply.
    pub fn advance(self, reply: Reply, home: Option<&str>) -> (r: (Task, Turn))
        requires
            accepted(self.wait@, reply),
        ensures
            r.0.ctx.json == self.ctx.json,
            made(
                r.0,
                r.1,
                move_after(self.ctx.json, self.wait@, reply, opt_str_view(home)),
            ),
    {
        let json = self.ctx.json;
        let m = match reply {
            Reply::Failed(e) => go_on_after_work(json, self.wait, Some(e)),
            Reply::Done => go_on_after_work(json, self.wait, None),
            Reply::Resolve(r) => match self.wait {
                Wait::Resolving(s, job) => resolve_go_on(job, s.advance(r)),
                Wait::ResolvingMany(op, s) => many_go_on(json, op, s.advance(r, home)),
                _ => nothing_more(),
            },
            Reply::Roots { config, home: h, default_is_dir } => match self.wait {
                Wait::Roots(after) => {
                    let at = match &h {
                        Some(d) => Some(d.as_str()),
                        None => None,
                    };
                    let roots = cache::effective_scan_roots(config, at, default_is_dir);
                    start_scan(json, after, roots)
                },
                _ => nothing_more(),
            },
            Reply::Repos(v) => go_on_after_repos(json, self.wait, v),
            Reply::Repo(info) => go_on_after_repo(json, self.wait, info),
            Reply::Config(c) => go_on_after_config(json, self.wait, c),
            Reply::Canonical(c) => match self.wait {
                Wait::RootPath { path, roots } => add_root(json, path, roots, c),
                _ => nothing_more(),
            },
            Reply::Commits(v) => end_with(emit(json, Data::Commits(v))),
            Reply::Files(v) => match self.wait {
                Wait::ShownFiles { path, commit } => {
                    let asked = commit.clone();
                    ask(
                        Wait::ShownDiff { commit, files: v },
                        Request::CommitDiff { path, commit: asked },
                    )
                },
                _ => nothing_more(),
            },
            Reply::Changes(v) => end_with(emit(json, Data::Changes(v))),
            Reply::Branches(v) => end_with(emit(json, Data::Branches(v))),
            Reply::Stashes(v) => end_with(emit(json, Data::Stashes(v))),
            Reply::Remotes(v) => end_with(emit(json, Data::Remotes(v))),
            Reply::Profile(p) => match self.wait {
                Wait::ProfileRead { path, set_name, set_email } => set_profile(
                    path,
                    set_name,
                    set_email,
                    p.name,
                    p.email,
                ),
                _ => end_with(emit(json, Data::Profile(p))),
            },
            Reply::Readme(c) => end_with(emit(json, Data::Readme(c))),
            Reply::Text(s) => go_on_after_text(json, self.wait, s),
        };
        (Task { ctx: self.ctx, wait: m.wait }, Turn { says: m.says, step: m.step })
    }
}

// ── Laws ─────────────────────────────────

/// A command that was asked for JSON prints nothing else.
pub proof fn json_keeps_to_json(wait: WaitView, reply: Reply, home: Option<Seq<char>>)
    requires
        accepted(wait, reply),
    ensures
        forall|i: int|
            0 <= i < move_after(true, wait, reply, home).says.len() ==> !(
            #[trigger] move_after(true, wait, reply, home).says[i] is Notice
                || move_after(true, wait, reply, home).says[i] is Text),
{
}

pub open spec fn prints_json(m: MoveView) -> bool {
    exists|i: int| 0 <= i < m.says.len() && #[trigger] m.says[i] is Json
}

/// Every command that was asked for JSON and ends well prints some, but for
/// the terminal interface.
pub proof fn json_is_printed(wait: WaitView, reply: Reply, home: Option<Seq<char>>)
    requires
        accepted(wait, reply),
        !(wait is Tui),
        move_after(true, wait, reply, home).step is Done,
    ensures
        prints_json(move_after(true, wait, reply, home)),
{
    let m = move_after(true, wait, reply, home);
    assert(m.says[m.says.len() - 1] is Json);
}

/// A command that ends at once, when it was asked for JSON, prints some.
pub proof fn json_is_printed_at_once(command: Command, home: Option<Seq<char>>)
    requires
        command_start(true, command, home).step is Done,
    ensures
        prints_json(command_start(true, command, home)),
{
    let m = command_start(true, command, home);
    assert(m.says[m.says.len() - 1] is Json);
}

/// How far a command is from its end: whether it still looks for several
/// repositories, and how many replies it waits for at most, as far as that is
/// known.
pub open spec fn distance(w: WaitView) -> (nat, nat) {
    match w {
        WaitView::ResolvingMany(_, s) => (1, replies_to_find_many(s)),
        WaitView::Resolving(s, _) => (0, (3 + replies_to_find(s)) as nat),
        WaitView::BulkWork { op, targets, at, results } => (
            0,
            (2 * (targets.len() - at) + 2) as nat,
        ),
        WaitView::BulkInfo { op, targets, at, results, error } => (
            0,
            (2 * (targets.len() - at) + 1) as nat,
        ),
        WaitView::Roots(_) => (0, 3),
        WaitView::Scanned(_) => (0, 2),
        WaitView::Pushed { .. } => (0, 3),
        WaitView::PushInfo { .. } => (0, 2),
        WaitView::ShownFiles { .. } => (0, 2),
        WaitView::Staged { .. } => (0, 2),
        WaitView::ProfileRead { .. } => (0, 3),
        WaitView::ProfileSet { .. } => (0, 2),
        WaitView::RootAdded { .. } => (0, 2),
        WaitView::Over => (0, 0),
        _ => (0, 1),
    }
}

/// Every reply brings a command closer to its end.
pub proof fn every_command_ends(json: bool, wait: WaitView, reply: Reply, home: Option<Seq<char>>)
    requires
        accepted(wait, reply),
    ensures
        ({
            let m = move_after(json, wait, reply, home);
            let (before, after) = (distance(wait), distance(m.wait));
            ||| m.wait is Over && !(m.step is Ask)
            ||| m.step is Ask && (after.0 < before.0 || (after.0 == before.0 && after.1 < before.1))
        }),
{
    if let Reply::Resolve(r) = reply {
        match wait {
            WaitView::Resolving(s, job) => {
                resolver::a_search_ends(s, r);
            },
            WaitView::ResolvingMany(op, s) => {
                resolver::a_search_for_many_ends(s, r, home);
            },
            _ => {},
        }
    }
}

/// A listing that refreshes says what a scan says, and then shows what a
/// listing of the known repositories shows.
pub proof fn refreshing_is_scanning_first(
    json: bool,
    args: ListArgs,
    found: Seq<RepoInfo>,
    known: Seq<RepoInfo>,
)
    ensures
        scan_end(json, Some(args), found).says == scan_end(json, None, found).says,
        scan_end(json, Some(args), found).step == StepView::Ask(RequestView::LoadCache),
        list_end(json, args, true, known).says.last() == list_end(json, args, false, known).says.last(),
        list_end(json, args, true, known).says.last() == emitted(
            json,
            DataView::Repos(listing(args, known)),
        ),
        list_end(json, args, true, known).says.len() == 1,
{
    let says = scan_end(json, None, found).says;
    assert(says + Seq::<SayView>::empty() =~= says);
}

/// A command without JSON prints none.
pub proof fn text_keeps_to_text(wait: WaitView, reply: Reply, home: Option<Seq<char>>)
    requires
        accepted(wait, reply),
    ensures
        forall|i: int|
            0 <= i < move_after(false, wait, reply, home).says.len() ==> !(
            #[trigger] move_after(false, wait, reply, home).says[i] is Json),
{
}

/// A failed piece of work ends a command with its error, unless the command
/// reports the outcome of work or can do without it.
pub proof fn failures_end_commands(json: bool, wait: WaitView, e: AppError, home: Option<Seq<char>>)
    requires
        accepted(wait, Reply::Failed(e)),
        !(wait is Pushed),
        !(wait is BulkWork),
        !(wait is ProfileRead),
    ensures
        move_after(json, wait, Reply::Failed(e), home) == failing(e@),
{
}

/// An operation on several repositories goes on to the next one whether the
/// last one worked or not.
pub proof fn one_failure_stops_no_other(
    json: bool,
    wait: WaitView,
    e: AppError,
    home: Option<Seq<char>>,
)
    requires
        accepted(wait, Reply::Failed(e)),
        wait is BulkWork,
    ensures
        move_after(json, wait, Reply::Failed(e), home).step == move_after(
            json,
            wait,
            Reply::Done,
            home,
        ).step,
        move_after(json, wait, Reply::Failed(e), home).wait is BulkInfo,
{
}

/// The results are those of the first repositories, in order.
pub open spec fn results_follow(
    results: Seq<BulkResultView>,
    targets: Seq<(Seq<char>, Seq<char>)>,
) -> bool {
    &&& results.len() <= targets.len()
    &&& forall|i: int|
        0 <= i < results.len() ==> (#[trigger] results[i]).name == targets[i].0 && results[i].path
            == targets[i].1
}

/// An operation on several repositories gives one result for each, in the
/// order in which they were found, and brings the known ones up to date only
/// after the last.
pub proof fn every_repo_gets_its_result(
    json: bool,
    op: Op,
    targets: Seq<(Seq<char>, Seq<char>)>,
    at: int,
    results: Seq<BulkResultView>,
    error: Option<Seq<char>>,
    status: RepoInfo,
)
    requires
        0 <= at < targets.len(),
        results.len() == at,
        results_follow(results, targets),
    ensures
        match bulk_next(json, op, targets, at, results, error, status).wait {
            WaitView::BulkWork { op: o, targets: t, at: next, results: r } => {
                &&& o == op
                &&& t == targets
                &&& next == at + 1
                &&& next < targets.len()
                &&& r.len() == next
                &&& results_follow(r, targets)
            },
            WaitView::BulkCache { results: r } => {
                &&& r.len() == targets.len()
                &&& results_follow(r, targets)
            },
            _ => false,
        },
{
}

/// A root that was added is there, and adding it again changes nothing.
pub proof fn adding_a_root_twice_is_once(
    json: bool,
    path: Seq<char>,
    roots: Seq<Seq<char>>,
    canonical: Option<Seq<char>>,
)
    ensures
        ({
            let root = match canonical {
                Some(c) => c,
                None => path,
            };
            let kept = if roots.contains(root) {
                roots
            } else {
                roots.push(root)
            };
            &&& kept.contains(root)
            &&& root_added(json, path, kept, canonical).says == seq![
                emitted(json, DataView::Did { what: "added root"@, rest: " "@ + root }),
            ]
        }),
{
    let root = match canonical {
        Some(c) => c,
        None => path,
    };
    if !roots.contains(root) {
        assert(roots.push(root)[roots.len() as int] == root);
        assert(roots.push(root).contains(root));
    }
    let said = seq![emitted(json, DataView::Did { what: "added root"@, rest: " "@ + root })];
    assert(Seq::<SayView>::empty() + said =~= said);
}

/// A root that was removed is nowhere any more, and all others are kept.
pub proof fn removing_a_root_removes_it(roots: Seq<Seq<char>>, path: Seq<char>, other: Seq<char>)
    requires
        other != path,
        roots.contains(other),
    ensures
        !without_text(roots, path).contains(path),
        without_text(roots, path).contains(other),
{
    let f = |t: Seq<char>| t != path;
    if roots.filter(f).contains(path) {
        let i = choose|i: int| 0 <= i < roots.filter(f).len() && roots.filter(f)[i] == path;
        roots.lemma_filter_pred(f, i);
    }
    let k = choose|k: int| 0 <= k < roots.len() && roots[k] == other;
    roots.lemma_filter_contains(f, k);
}

} // verus!
