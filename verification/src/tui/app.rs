//! The state of the terminal interface, and how events change it.
//!
//! Times are milliseconds on a clock that only moves on.
use vstd::prelude::*;
use vstd::string::*;

use crate::cache;
use crate::cache::updated_in;
use crate::git::operations::{EventView, ProgressEvent};
use crate::models::{BranchInfo, CommitInfo, FileChange, RepoHealth, RepoInfo, StashEntry};
use crate::paths;
use crate::paths::file_name_of;
use crate::resolver::{all_targets, targets_view, Target};
use crate::text;
use crate::text::{decimal_of, lowercase, opt_view, texts};
use crate::tui::format::{duration_text, fmt_duration};

verus! {

#[derive(Debug, Clone, Copy, PartialEq, Eq, Structural)]
pub enum Mode {
    Dashboard,
    Detail,
    Search,
    Help,
}

#[derive(Debug, Clone, Copy, PartialEq, Eq, Structural)]
pub enum Tab {
    Changes,
    History,
    Branches,
    Stashes,
    Readme,
}

pub open spec fn tab_title(t: Tab) -> Seq<char> {
    match t {
        Tab::Changes => "Changes"@,
        Tab::History => "History"@,
        Tab::Branches => "Branches"@,
        Tab::Stashes => "Stashes"@,
        Tab::Readme => "README"@,
    }
}

/// The place of a tab in the row of tabs.
pub open spec fn tab_index(t: Tab) -> int {
    match t {
        Tab::Changes => 0,
        Tab::History => 1,
        Tab::Branches => 2,
        Tab::Stashes => 3,
        Tab::Readme => 4,
    }
}

/// The tab at a place in the row of tabs.
pub open spec fn tab_at(i: int) -> Tab {
    if i == 0 {
        Tab::Changes
    } else if i == 1 {
        Tab::History
    } else if i == 2 {
        Tab::Branches
    } else if i == 3 {
        Tab::Stashes
    } else {
        Tab::Readme
    }
}

impl Tab {
    pub fn title(&self) -> (r: &'static str)
        ensures
            r@ == tab_title(*self),
    {
        match self {
            Tab::Changes => "Changes",
            Tab::History => "History",
            Tab::Branches => "Branches",
            Tab::Stashes => "Stashes",
            Tab::Readme => "README",
        }
    }

    pub fn index(&self) -> (r: usize)
        ensures
            r == tab_index(*self),
    {
        match self {
            Tab::Changes => 0,
            Tab::History => 1,
            Tab::Branches => 2,
            Tab::Stashes => 3,
            Tab::Readme => 4,
        }
    }

    /// The tab at a place in the row of tabs.
    pub fn at(i: usize) -> (r: Tab)
        requires
            i < 5,
        ensures
            r == tab_at(i as int),
    {
        if i == 0 {
            Tab::Changes
        } else if i == 1 {
            Tab::History
        } else if i == 2 {
            Tab::Branches
        } else if i == 3 {
            Tab::Stashes
        } else {
            Tab::Readme
        }
    }

    /// The tab to the right; after the last one comes the first.
    pub fn next(&self) -> (r: Tab)
        ensures
            r == tab_at((tab_index(*self) + 1) % 5),
    {
        Tab::at((self.index() + 1) % 5)
    }

    /// The tab to the left; before the first one comes the last.
    pub fn prev(&self) -> (r: Tab)
        ensures
            r == tab_at((tab_index(*self) + 4) % 5),
    {
        Tab::at((self.index() + 4) % 5)
    }
}

/// Going right and left again leads back, and so does going round.
pub proof fn tabs_go_round(t: Tab)
    ensures
        tab_at(tab_index(t)) == t,
        tab_at((tab_index(tab_at((tab_index(t) + 1) % 5)) + 4) % 5) == t,
        tab_at((tab_index(tab_at((tab_index(t) + 4) % 5)) + 1) % 5) == t,
        tab_at((tab_index(t) + 5) % 5) == t,
{
}

// ── Operations ───────────────────────────

#[derive(Debug, Clone, Copy, PartialEq, Eq, Structural)]
pub enum BulkOp {
    Fetch,
    Pull,
}

pub open spec fn bulk_verb(op: BulkOp) -> Seq<char> {
    match op {
        BulkOp::Fetch => "fetch"@,
        BulkOp::Pull => "pull"@,
    }
}

impl BulkOp {
    pub fn verb(&self) -> (r: &'static str)
        ensures
            r@ == bulk_verb(*self),
    {
        match self {
            BulkOp::Fetch => "fetch",
            BulkOp::Pull => "pull",
        }
    }
}

#[derive(Debug, Clone, Copy, PartialEq, Eq, Structural)]
pub enum SingleOp {
    Fetch,
    Pull,
    Push,
}

pub open spec fn running_verb(op: SingleOp) -> Seq<char> {
    match op {
        SingleOp::Fetch => "fetching"@,
        SingleOp::Pull => "pulling"@,
        SingleOp::Push => "pushing"@,
    }
}

pub open spec fn done_verb(op: SingleOp) -> Seq<char> {
    match op {
        SingleOp::Fetch => "fetched"@,
        SingleOp::Pull => "pulled"@,
        SingleOp::Push => "pushed"@,
    }
}

impl SingleOp {
    pub fn progress_verb(&self) -> (r: &'static str)
        ensures
            r@ == running_verb(*self),
    {
        match self {
            SingleOp::Fetch => "fetching",
            SingleOp::Pull => "pulling",
            SingleOp::Push => "pushing",
        }
    }

    pub fn success_verb(&self) -> (r: &'static str)
        ensures
            r@ == done_verb(*self),
    {
        match self {
            SingleOp::Fetch => "fetched",
            SingleOp::Pull => "pulled",
            SingleOp::Push => "pushed",
        }
    }
}

/// What the worker of an operation on one repository reports.
pub enum SingleEvent {
    Progress(ProgressEvent),
    /// The repository afterwards, or why the operation failed.
    Done(Result<RepoInfo, String>),
    /// The worker is gone.
    Disconnected,
}

/// What the worker of an operation on all repositories reports.
pub enum WorkerMsg {
    Progress { name: String },
    Done { path: String, error: Option<String>, updated: RepoInfo },
    Finished,
    /// The worker is gone.
    Disconnected,
}

/// The latest of each kind of progress.
pub struct SingleProgress {
    pub stage: Option<String>,
    pub sideband: Option<String>,
    pub tip: Option<String>,
    /// Bytes, and indexed, received and total objects.
    pub transfer: Option<(usize, usize, usize, usize)>,
    /// Current and total objects, and bytes.
    pub push: Option<(usize, usize, usize)>,
    /// Current and total steps.
    pub rebase: Option<(usize, usize)>,
}

pub struct ProgressView {
    pub stage: Option<Seq<char>>,
    pub sideband: Option<Seq<char>>,
    pub tip: Option<Seq<char>>,
    pub transfer: Option<(usize, usize, usize, usize)>,
    pub push: Option<(usize, usize, usize)>,
    pub rebase: Option<(usize, usize)>,
}

impl View for SingleProgress {
    type V = ProgressView;

    open spec fn view(&self) -> ProgressView {
        ProgressView {
            stage: opt_view(self.stage),
            sideband: opt_view(self.sideband),
            tip: opt_view(self.tip),
            transfer: self.transfer,
            push: self.push,
            rebase: self.rebase,
        }
    }
}

impl ProgressView {
    pub open spec fn none() -> ProgressView {
        ProgressView {
            stage: None,
            sideband: None,
            tip: None,
            transfer: None,
            push: None,
            rebase: None,
        }
    }

    /// An event replaces what was last known of its kind.
    pub open spec fn after(self, ev: EventView) -> ProgressView {
        match ev {
            EventView::Stage(s) => ProgressView { stage: Some(s), ..self },
            EventView::Transfer {
                received_bytes,
                indexed_objects,
                received_objects,
                total_objects,
            } => ProgressView {
                transfer: Some((received_bytes, indexed_objects, received_objects, total_objects)),
                ..self
            },
            EventView::PushTransfer { current, total, bytes } => ProgressView {
                push: Some((current, total, bytes)),
                ..self
            },
            EventView::Sideband(s) => ProgressView { sideband: Some(s), ..self },
            EventView::Tip(s) => ProgressView { tip: Some(s), ..self },
            EventView::RebaseStep { current, total } => ProgressView {
                rebase: Some((current, total)),
                ..self
            },
        }
    }
}

impl SingleProgress {
    pub fn none() -> (r: SingleProgress)
        ensures
            r@ == ProgressView::none(),
    {
        SingleProgress {
            stage: None,
            sideband: None,
            tip: None,
            transfer: None,
            push: None,
            rebase: None,
        }
    }

    /// An event replaces what was last known of its kind.
    pub fn note(&mut self, ev: ProgressEvent)
        ensures
            final(self)@ == old(self)@.after(ev@),
    {
        match ev {
            ProgressEvent::Stage(s) => {
                self.stage = Some(s);
            },
            ProgressEvent::Transfer {
                received_bytes,
                indexed_objects,
                received_objects,
                total_objects,
            } => {
                self.transfer =
                Some((received_bytes, indexed_objects, received_objects, total_objects));
            },
            ProgressEvent::PushTransfer { current, total, bytes } => {
                self.push = Some((current, total, bytes));
            },
            ProgressEvent::Sideband(s) => {
                self.sideband = Some(s);
            },
            ProgressEvent::Tip(s) => {
                self.tip = Some(s);
            },
            ProgressEvent::RebaseStep { current, total } => {
                self.rebase = Some((current, total));
            },
        }
    }
}

/// A running operation on one repository.
pub struct SingleState {
    pub op: SingleOp,
    pub name: String,
    pub path: String,
    pub started: u64,
    pub progress: SingleProgress,
}

pub struct SingleView {
    pub op: SingleOp,
    pub name: Seq<char>,
    pub path: Seq<char>,
    pub started: u64,
    pub progress: ProgressView,
}

impl View for SingleState {
    type V = SingleView;

    open spec fn view(&self) -> SingleView {
        SingleView {
            op: self.op,
            name: self.name@,
            path: self.path@,
            started: self.started,
            progress: self.progress@,
        }
    }
}

/// A running operation on all repositories.
pub struct BulkState {
    pub op: BulkOp,
    pub total: usize,
    pub done: usize,
    pub current: Option<String>,
    /// How many of them failed.
    pub errors: usize,
}

pub struct BulkView {
    pub op: BulkOp,
    pub total: usize,
    pub done: usize,
    pub current: Option<Seq<char>>,
    pub errors: usize,
}

impl View for BulkState {
    type V = BulkView;

    open spec fn view(&self) -> BulkView {
        BulkView {
            op: self.op,
            total: self.total,
            done: self.done,
            current: opt_view(self.current),
            errors: self.errors,
        }
    }
}

// ── State ────────────────────────────────

#[derive(Debug, Clone, Copy, PartialEq, Eq, Structural)]
pub enum Level {
    Info,
    Success,
    Warn,
    Error,
}

/// A message to the user, which goes away after a while.
pub struct StatusMsg {
    pub text: String,
    pub level: Level,
    pub set_at: u64,
}

pub struct StatusView {
    pub text: Seq<char>,
    pub level: Level,
    pub set_at: u64,
}

impl View for StatusMsg {
    type V = StatusView;

    open spec fn view(&self) -> StatusView {
        StatusView { text: self.text@, level: self.level, set_at: self.set_at }
    }
}

/// How long a message stays.
pub const STATUS_MILLIS: u64 = 4000;

/// How many commits the history of a repository shows.
pub const HISTORY_COUNT: usize = 200;

/// A repository in detail. What a tab shows is loaded when it is first shown.
pub struct Detail {
    pub repo_index: usize,
    pub tab: Tab,
    pub changes: Option<Vec<FileChange>>,
    pub commits: Option<Vec<CommitInfo>>,
    pub branches: Option<Vec<BranchInfo>>,
    pub stashes: Option<Vec<StashEntry>>,
    pub readme: Option<String>,
    pub changes_sel: Option<usize>,
    pub commits_sel: Option<usize>,
    pub branches_sel: Option<usize>,
    pub stashes_sel: Option<usize>,
    pub readme_scroll: u16,
}

pub struct DetailView {
    pub repo_index: usize,
    pub tab: Tab,
    pub changes: Option<Seq<FileChange>>,
    pub commits: Option<Seq<CommitInfo>>,
    pub branches: Option<Seq<BranchInfo>>,
    pub stashes: Option<Seq<StashEntry>>,
    pub readme: Option<Seq<char>>,
    pub changes_sel: Option<usize>,
    pub commits_sel: Option<usize>,
    pub branches_sel: Option<usize>,
    pub stashes_sel: Option<usize>,
    pub readme_scroll: u16,
}

pub open spec fn opt_seq<T>(o: Option<Vec<T>>) -> Option<Seq<T>> {
    match o {
        Some(v) => Some(v@),
        None => None,
    }
}

impl View for Detail {
    type V = DetailView;

    open spec fn view(&self) -> DetailView {
        DetailView {
            repo_index: self.repo_index,
            tab: self.tab,
            changes: opt_seq(self.changes),
            commits: opt_seq(self.commits),
            branches: opt_seq(self.branches),
            stashes: opt_seq(self.stashes),
            readme: opt_view(self.readme),
            changes_sel: self.changes_sel,
            commits_sel: self.commits_sel,
            branches_sel: self.branches_sel,
            stashes_sel: self.stashes_sel,
            readme_scroll: self.readme_scroll,
        }
    }
}

impl DetailView {
    pub open spec fn fresh(repo_index: usize) -> DetailView {
        DetailView {
            repo_index,
            tab: Tab::Changes,
            changes: None,
            commits: None,
            branches: None,
            stashes: None,
            readme: None,
            changes_sel: Some(0),
            commits_sel: Some(0),
            branches_sel: Some(0),
            stashes_sel: Some(0),
            readme_scroll: 0,
        }
    }

    /// What a tab shows is loaded.
    pub open spec fn has_loaded(self, tab: Tab) -> bool {
        match tab {
            Tab::Changes => self.changes is Some,
            Tab::History => self.commits is Some,
            Tab::Branches => self.branches is Some,
            Tab::Stashes => self.stashes is Some,
            Tab::Readme => self.readme is Some,
        }
    }

    /// What the current tab shows is to be loaded again.
    pub open spec fn invalidated(self) -> DetailView {
        match self.tab {
            Tab::Changes => DetailView { changes: None, ..self },
            Tab::History => DetailView { commits: None, ..self },
            Tab::Branches => DetailView { branches: None, ..self },
            Tab::Stashes => DetailView { stashes: None, ..self },
            Tab::Readme => DetailView { readme: None, readme_scroll: 0, ..self },
        }
    }
}

impl Detail {
    pub fn new(repo_index: usize) -> (r: Detail)
        ensures
            r@ == DetailView::fresh(repo_index),
    {
        Detail {
            repo_index,
            tab: Tab::Changes,
            changes: None,
            commits: None,
            branches: None,
            stashes: None,
            readme: None,
            changes_sel: Some(0),
            commits_sel: Some(0),
            branches_sel: Some(0),
            stashes_sel: Some(0),
            readme_scroll: 0,
        }
    }

    /// Whether what a tab shows is loaded.
    pub fn has_loaded(&self, tab: Tab) -> (r: bool)
        ensures
            r == self@.has_loaded(tab),
    {
        match tab {
            Tab::Changes => self.changes.is_some(),
            Tab::History => self.commits.is_some(),
            Tab::Branches => self.branches.is_some(),
            Tab::Stashes => self.stashes.is_some(),
            Tab::Readme => self.readme.is_some(),
        }
    }

    /// Forgets what the current tab shows.
    pub fn invalidate(&mut self)
        ensures
            final(self)@ == old(self)@.invalidated(),
    {
        match self.tab {
            Tab::Changes => {
                self.changes = None;
            },
            Tab::History => {
                self.commits = None;
            },
            Tab::Branches => {
                self.branches = None;
            },
            Tab::Stashes => {
                self.stashes = None;
            },
            Tab::Readme => {
                self.readme = None;
                self.readme_scroll = 0;
            },
        }
    }
}

pub struct App {
    pub repos: Vec<RepoInfo>,
    pub filter_health: Option<RepoHealth>,
    pub search: String,
    /// The selected row of the dashboard.
    pub dash_sel: Option<usize>,
    pub mode: Mode,
    pub prev_mode: Mode,
    pub detail: Option<Detail>,
    pub status: Option<StatusMsg>,
    pub bulk: Option<BulkState>,
    pub single: Option<SingleState>,
    pub should_quit: bool,
}

pub struct AppView {
    pub repos: Seq<RepoInfo>,
    pub filter_health: Option<RepoHealth>,
    pub search: Seq<char>,
    pub dash_sel: Option<usize>,
    pub mode: Mode,
    pub prev_mode: Mode,
    pub detail: Option<DetailView>,
    pub status: Option<StatusView>,
    pub bulk: Option<BulkView>,
    pub single: Option<SingleView>,
    pub should_quit: bool,
}

impl View for App {
    type V = AppView;

    open spec fn view(&self) -> AppView {
        AppView {
            repos: self.repos@,
            filter_health: self.filter_health,
            search: self.search@,
            dash_sel: self.dash_sel,
            mode: self.mode,
            prev_mode: self.prev_mode,
            detail: match self.detail {
                Some(d) => Some(d@),
                None => None,
            },
            status: match self.status {
                Some(m) => Some(m@),
                None => None,
            },
            bulk: match self.bulk {
                Some(b) => Some(b@),
                None => None,
            },
            single: match self.single {
                Some(s) => Some(s@),
                None => None,
            },
            should_quit: self.should_quit,
        }
    }
}

/// Outside work that the interface asks for.
pub enum Action {
    /// Load what a tab shows; `limit` is how many entries, where that is
    /// limited.
    LoadTab { path: String, tab: Tab, limit: Option<usize> },
    /// Start a worker on one repository.
    Single { op: SingleOp, path: String },
    /// Start a worker on several repositories.
    Bulk { all: BulkOp, targets: Vec<Target> },
    /// Read the state of a repository.
    Refresh(String),
    /// Find out which roots to scan.
    ReadRoots,
    /// Look for repositories under the roots.
    Scan(Vec<String>),
    /// Keep the repositories of the state.
    SaveCache,
}

pub enum ActionView {
    LoadTab { path: Seq<char>, tab: Tab, limit: Option<usize> },
    Single { op: SingleOp, path: Seq<char> },
    Bulk { all: BulkOp, targets: Seq<(Seq<char>, Seq<char>)> },
    Refresh(Seq<char>),
    ReadRoots,
    Scan(Seq<Seq<char>>),
    SaveCache,
}

impl View for Action {
    type V = ActionView;

    open spec fn view(&self) -> ActionView {
        match self {
            Action::LoadTab { path, tab, limit } => ActionView::LoadTab {
                path: path@,
                tab: *tab,
                limit: *limit,
            },
            Action::Single { op, path } => ActionView::Single { op: *op, path: path@ },
            Action::Bulk { all, targets } => ActionView::Bulk {
                all: *all,
                targets: targets_view(targets@),
            },
            Action::Refresh(p) => ActionView::Refresh(p@),
            Action::ReadRoots => ActionView::ReadRoots,
            Action::Scan(v) => ActionView::Scan(texts(v@)),
            Action::SaveCache => ActionView::SaveCache,
        }
    }
}

/// How many entries of a tab are loaded, where that is limited.
pub open spec fn load_limit(tab: Tab) -> Option<usize> {
    match tab {
        Tab::History => Some(HISTORY_COUNT),
        _ => None,
    }
}

pub open spec fn action_view(a: Option<Action>) -> Option<ActionView> {
    match a {
        Some(x) => Some(x@),
        None => None,
    }
}

// ── Filtering ────────────────────────────

/// A repository passes the filter and the search; the search is in lower case.
pub open spec fn passes(r: RepoInfo, health: Option<RepoHealth>, needle: Seq<char>) -> bool {
    &&& match health {
        Some(h) => r.health == h,
        None => true,
    }
    &&& needle.len() == 0 || r.has_needle(needle)
}

/// The places of the repositories that pass, in order.
pub open spec fn passing(
    repos: Seq<RepoInfo>,
    health: Option<RepoHealth>,
    needle: Seq<char>,
) -> Seq<usize>
    decreases repos.len(),
{
    if repos.len() == 0 {
        seq![]
    } else {
        let so_far = passing(repos.drop_last(), health, needle);
        if passes(repos.last(), health, needle) {
            so_far.push((repos.len() - 1) as usize)
        } else {
            so_far
        }
    }
}

fn does_pass(r: &RepoInfo, health: Option<RepoHealth>, needle: &str) -> (b: bool)
    ensures
        b == passes(*r, health, needle@),
{
    if let Some(h) = health {
        if r.health != h {
            return false;
        }
    }
    text::length(needle) == 0 || r.mentions(needle)
}

/// Every place that passes is that of a repository that passes, and the
/// places of all that pass are there.
pub proof fn passing_is_exact(
    repos: Seq<RepoInfo>,
    health: Option<RepoHealth>,
    needle: Seq<char>,
    i: usize,
)
    requires
        repos.len() <= usize::MAX,
    ensures
        passing(repos, health, needle).contains(i) <==> i < repos.len() && passes(
            repos[i as int],
            health,
            needle,
        ),
    decreases repos.len(),
{
    let all = passing(repos, health, needle);
    if repos.len() > 0 {
        let rest = repos.drop_last();
        let so_far = passing(rest, health, needle);
        passing_is_exact(rest, health, needle, i);
        let last = (repos.len() - 1) as usize;
        if passes(repos.last(), health, needle) {
            assert(all == so_far.push(last));
            if so_far.contains(i) {
                let k = choose|k: int| 0 <= k < so_far.len() && so_far[k] == i;
                assert(all[k] == i);
            }
            if i == last {
                assert(all[so_far.len() as int] == i);
            }
            if all.contains(i) && i != last {
                let k = choose|k: int| 0 <= k < all.len() && all[k] == i;
                assert(so_far[k] == i);
            }
        }
    }
}

/// The places of those that pass are in order, none of them twice.
pub proof fn passing_is_in_order(
    repos: Seq<RepoInfo>,
    health: Option<RepoHealth>,
    needle: Seq<char>,
    i: int,
    j: int,
)
    requires
        repos.len() <= usize::MAX,
        0 <= i < j < passing(repos, health, needle).len(),
    ensures
        passing(repos, health, needle)[i] < passing(repos, health, needle)[j],
    decreases repos.len(),
{
    if repos.len() > 0 {
        let rest = repos.drop_last();
        passing_in_range(rest, health, needle);
        if j < passing(rest, health, needle).len() {
            passing_is_in_order(rest, health, needle, i, j);
        }
    }
}

proof fn passing_in_range(repos: Seq<RepoInfo>, health: Option<RepoHealth>, needle: Seq<char>)
    requires
        repos.len() <= usize::MAX,
    ensures
        passing(repos, health, needle).len() <= repos.len(),
        forall|k: int|
            0 <= k < passing(repos, health, needle).len() ==> (#[trigger] passing(
                repos,
                health,
                needle,
            )[k]) < repos.len(),
    decreases repos.len(),
{
    if repos.len() > 0 {
        passing_in_range(repos.drop_last(), health, needle);
    }
}

impl AppView {
    pub open spec fn fresh(repos: Seq<RepoInfo>) -> AppView {
        AppView {
            repos,
            filter_health: None,
            search: seq![],
            dash_sel: if repos.len() > 0 {
                Some(0)
            } else {
                None
            },
            mode: Mode::Dashboard,
            prev_mode: Mode::Dashboard,
            detail: None,
            status: None,
            bulk: None,
            single: None,
            should_quit: false,
        }
    }

    /// The places of the repositories on the dashboard.
    pub open spec fn filtered(self) -> Seq<usize> {
        passing(self.repos, self.filter_health, lowercase(self.search))
    }

    pub open spec fn telling(self, text: Seq<char>, level: Level, now: u64) -> AppView {
        AppView { status: Some(StatusView { text, level, set_at: now }), ..self }
    }

    /// A message goes away after its time.
    pub open spec fn ticked(self, now: u64) -> AppView {
        match self.status {
            Some(m) => if m.set_at + STATUS_MILLIS <= now {
                AppView { status: None, ..self }
            } else {
                self
            },
            None => self,
        }
    }

    /// The state of a repository is brought up to date, if it is known.
    pub open spec fn updated(self, path: Seq<char>, info: RepoInfo) -> AppView {
        AppView { repos: updated_in(self.repos, path, info), ..self }
    }

    /// What a message of the worker on all repositories leads to.
    pub open spec fn after_message(self, msg: WorkerMsg, now: u64) -> (
        AppView,
        Option<ActionView>,
    ) {
        match self.bulk {
            None => (self, None),
            Some(b) => match msg {
                WorkerMsg::Progress { name } => (
                    AppView { bulk: Some(BulkView { current: Some(name@), ..b }), ..self },
                    None,
                ),
                WorkerMsg::Done { path, error, updated } => (
                    AppView {
                        bulk: Some(
                            BulkView {
                                done: counted(b.done),
                                errors: if error is Some {
                                    counted(b.errors)
                                } else {
                                    b.errors
                                },
                                ..b
                            },
                        ),
                        ..self
                    }.updated(path@, updated),
                    None,
                ),
                WorkerMsg::Finished => (
                    AppView { bulk: None, ..self }.telling(
                        bulk_report(b),
                        if b.errors == 0 {
                            Level::Success
                        } else {
                            Level::Warn
                        },
                        now,
                    ),
                    Some(ActionView::SaveCache),
                ),
                WorkerMsg::Disconnected => (
                    AppView { bulk: None, ..self }.telling(
                        "bulk worker disconnected"@,
                        Level::Error,
                        now,
                    ),
                    None,
                ),
            },
        }
    }

    /// What an event of the worker on one repository leads to.
    pub open spec fn after_event(self, ev: SingleEvent, now: u64) -> (AppView, Option<ActionView>) {
        match self.single {
            None => (self, None),
            Some(s) => {
                let idle = AppView { single: None, ..self };
                match ev {
                    SingleEvent::Progress(p) => (
                        AppView {
                            single: Some(SingleView { progress: s.progress.after(p@), ..s }),
                            ..self
                        },
                        None,
                    ),
                    SingleEvent::Done(Ok(info)) => (
                        idle.updated(s.path, info).telling(
                            done_verb(s.op) + " "@ + s.name + " in "@ + duration_text(
                                passed(s.started, now),
                            ),
                            Level::Success,
                            now,
                        ),
                        Some(ActionView::SaveCache),
                    ),
                    SingleEvent::Done(Err(e)) => (
                        idle.telling(s.name + ": "@ + e@, Level::Error, now),
                        None,
                    ),
                    SingleEvent::Disconnected => (
                        idle.telling(s.name + ": worker disconnected"@, Level::Error, now),
                        None,
                    ),
                }
            },
        }
    }

    /// An operation on one repository starts, unless something is running.
    pub open spec fn starting_single(self, path: Seq<char>, op: SingleOp, now: u64) -> (
        AppView,
        Option<ActionView>,
    ) {
        if self.single is Some {
            (self.telling("another operation is already running"@, Level::Warn, now), None)
        } else if self.bulk is Some {
            (self.telling("bulk operation in progress"@, Level::Warn, now), None)
        } else {
            (
                AppView {
                    single: Some(
                        SingleView {
                            op,
                            name: match file_name_of(path) {
                                Some(n) => n,
                                None => path,
                            },
                            path,
                            started: now,
                            progress: ProgressView::none(),
                        },
                    ),
                    ..self
                },
                Some(ActionView::Single { op, path }),
            )
        }
    }

    /// An operation on all repositories starts, unless something is running
    /// or there are none.
    pub open spec fn starting_bulk(self, op: BulkOp, now: u64) -> (AppView, Option<ActionView>) {
        if self.bulk is Some {
            (self.telling("bulk operation already running"@, Level::Warn, now), None)
        } else if self.single is Some {
            (self.telling("another operation is already running"@, Level::Warn, now), None)
        } else if self.repos.len() == 0 {
            (self.telling("no repos (run scan first)"@, Level::Warn, now), None)
        } else {
            (
                AppView {
                    bulk: Some(
                        BulkView {
                            op,
                            total: self.repos.len() as usize,
                            done: 0,
                            current: None,
                            errors: 0,
                        },
                    ),
                    ..self
                },
                Some(ActionView::Bulk { all: op, targets: all_targets(self.repos) }),
            )
        }
    }

    /// What the current tab shows is loaded, unless it is already.
    pub open spec fn tab_to_load(self) -> Option<ActionView> {
        match self.detail {
            Some(d) => if d.repo_index < self.repos.len() && !d.has_loaded(d.tab) {
                Some(
                    ActionView::LoadTab {
                        path: self.repos[d.repo_index as int].path@,
                        tab: d.tab,
                        limit: load_limit(d.tab),
                    },
                )
            } else {
                None
            },
            None => None,
        }
    }

    /// The roots to scan are known: the scan starts, unless there are none.
    pub open spec fn scanning(self, roots: Seq<Seq<char>>, now: u64) -> (
        AppView,
        Option<ActionView>,
    ) {
        if roots.len() == 0 {
            (
                self.telling(
                    "no scan roots configured (use: gitatlas config roots add)"@,
                    Level::Error,
                    now,
                ),
                None,
            )
        } else {
            (
                self.telling("scanning…"@, Level::Info, now),
                Some(ActionView::Scan(roots)),
            )
        }
    }

    /// What a scan found replaces what was known.
    pub open spec fn scanned(self, repos: Seq<RepoInfo>, now: u64) -> AppView {
        AppView { repos, ..self }.telling(
            "scanned "@ + decimal_of(repos.len()) + " repos"@,
            Level::Success,
            now,
        )
    }

    /// The state of a repository was read again.
    pub open spec fn refreshed(self, info: RepoInfo, now: u64) -> AppView {
        self.updated(info.path@, info).telling("status refreshed"@, Level::Info, now)
    }
}

/// One more, as far as there is room.
pub open spec fn counted(n: usize) -> usize {
    if n < usize::MAX {
        (n + 1) as usize
    } else {
        n
    }
}

/// The time that has passed since a moment.
pub open spec fn passed(since: u64, now: u64) -> nat {
    if since <= now {
        (now - since) as nat
    } else {
        0
    }
}

pub open spec fn bulk_report(b: BulkView) -> Seq<char> {
    if b.errors == 0 {
        bulk_verb(b.op) + " all complete ("@ + decimal_of(b.total as nat) + " repos)"@
    } else {
        bulk_verb(b.op) + " finished — "@ + decimal_of(b.errors as nat) + "/"@ + decimal_of(
            b.total as nat,
        ) + " failed"@
    }
}

fn count(n: usize) -> (r: usize)
    ensures
        r == counted(n),
{
    if n < usize::MAX {
        n + 1
    } else {
        n
    }
}

/// The time that has passed since a moment.
pub fn elapsed(since: u64, now: u64) -> (r: u64)
    ensures
        r == passed(since, now),
{
    if since <= now {
        now - since
    } else {
        0
    }
}

/// What was loaded for a tab, or why it could not be.
pub enum TabData {
    Changes(Result<Vec<FileChange>, String>),
    Commits(Result<Vec<CommitInfo>, String>),
    Branches(Result<Vec<BranchInfo>, String>),
    Stashes(Result<Vec<StashEntry>, String>),
    Readme(Result<Option<String>, String>),
}

pub open spec fn loaded_list<T>(r: Result<Vec<T>, String>) -> Seq<T> {
    match r {
        Ok(v) => v@,
        Err(_) => seq![],
    }
}

pub open spec fn load_error(d: TabData) -> Option<Seq<char>> {
    match d {
        TabData::Changes(Err(e)) => Some(e@),
        TabData::Commits(Err(e)) => Some(e@),
        TabData::Branches(Err(e)) => Some(e@),
        TabData::Stashes(Err(e)) => Some(e@),
        _ => None,
    }
}

impl DetailView {
    /// What was loaded is shown; what could not be loaded is empty, and a
    /// readme that could not be says so.
    pub open spec fn loaded(self, d: TabData) -> DetailView {
        match d {
            TabData::Changes(r) => DetailView { changes: Some(loaded_list(r)), ..self },
            TabData::Commits(r) => DetailView { commits: Some(loaded_list(r)), ..self },
            TabData::Branches(r) => DetailView { branches: Some(loaded_list(r)), ..self },
            TabData::Stashes(r) => DetailView { stashes: Some(loaded_list(r)), ..self },
            TabData::Readme(r) => DetailView {
                readme: Some(
                    match r {
                        Ok(Some(s)) => s@,
                        Ok(None) => "(no README found)"@,
                        Err(e) => "(error: "@ + e@ + ")"@,
                    },
                ),
                ..self
            },
        }
    }
}

impl AppView {
    pub open spec fn tab_loaded(self, d: TabData, now: u64) -> AppView {
        match self.detail {
            Some(detail) => {
                let shown = AppView { detail: Some(detail.loaded(d)), ..self };
                match load_error(d) {
                    Some(e) => shown.telling(e, Level::Error, now),
                    None => shown,
                }
            },
            None => self,
        }
    }
}

/// What was loaded, or nothing and the error.
fn or_empty<T>(r: Result<Vec<T>, String>) -> (p: (Vec<T>, Option<String>))
    ensures
        p.0@ == loaded_list(r),
        opt_view(p.1) == match r {
            Ok(_) => None::<Seq<char>>,
            Err(e) => Some(e@),
        },
{
    match r {
        Ok(v) => (v, None),
        Err(e) => {
            let none: Vec<T> = Vec::new();
            assert(none@ =~= seq![]);
            (none, Some(e))
        },
    }
}

impl Detail {
    /// Shows what was loaded, and gives the error, if there is one to tell.
    fn load(&mut self, d: TabData) -> (r: Option<String>)
        ensures
            final(self)@ == old(self)@.loaded(d),
            opt_view(r) == load_error(d),
    {
        match d {
            TabData::Changes(r) => {
                let (v, e) = or_empty(r);
                self.changes = Some(v);
                e
            },
            TabData::Commits(r) => {
                let (v, e) = or_empty(r);
                self.commits = Some(v);
                e
            },
            TabData::Branches(r) => {
                let (v, e) = or_empty(r);
                self.branches = Some(v);
                e
            },
            TabData::Stashes(r) => {
                let (v, e) = or_empty(r);
                self.stashes = Some(v);
                e
            },
            TabData::Readme(r) => {
                let s = match r {
                    Ok(Some(s)) => s,
                    Ok(None) => text::copy("(no README found)"),
                    Err(e) => text::copy("(error: ").concat(e.as_str()).concat(")"),
                };
                self.readme = Some(s);
                None
            },
        }
    }
}

impl App {
    /// The interface as it starts, with the known repositories.
    pub fn new(repos: Vec<RepoInfo>) -> (r: App)
        ensures
            r@ == AppView::fresh(repos@),
    {
        let dash_sel: Option<usize> = if repos.len() > 0 {
            Some(0)
        } else {
            None
        };
        let search = String::new();
        assert(search@ =~= seq![]);
        App {
            repos,
            filter_health: None,
            search,
            dash_sel,
            mode: Mode::Dashboard,
            prev_mode: Mode::Dashboard,
            detail: None,
            status: None,
            bulk: None,
            single: None,
            should_quit: false,
        }
    }

    /// The places of the repositories on the dashboard.
    pub fn filtered(&self) -> (r: Vec<usize>)
        ensures
            r@ == self@.filtered(),
            forall|k: int| 0 <= k < r@.len() ==> (#[trigger] r@[k]) < self.repos@.len(),
    {
        let needle = text::to_lowercase(self.search.as_str());
        let mut out: Vec<usize> = Vec::new();
        let mut i: usize = 0;
        assert(self.repos@.take(0) =~= seq![]);
        while i < self.repos.len()
            invariant
                needle@ == lowercase(self.search@),
                i <= self.repos@.len(),
                out@ == passing(self.repos@.take(i as int), self.filter_health, needle@),
            decreases self.repos@.len() - i,
        {
            assert(self.repos@.take(i + 1).drop_last() =~= self.repos@.take(i as int));
            if does_pass(&self.repos[i], self.filter_health, needle.as_str()) {
                out.push(i);
            }
            i = i + 1;
        }
        assert(self.repos@.take(i as int) =~= self.repos@);
        proof {
            passing_in_range(self.repos@, self.filter_health, needle@);
        }
        out
    }

    /// Shows a message.
    pub fn set_status(&mut self, text: &str, level: Level, now: u64)
        ensures
            final(self)@ == old(self)@.telling(text@, level, now),
    {
        self.status = Some(StatusMsg { text: text::copy(text), level, set_at: now });
    }

    /// Lets a message go away after its time.
    pub fn tick(&mut self, now: u64)
        ensures
            final(self)@ == old(self)@.ticked(now),
    {
        let over = match &self.status {
            Some(m) => m.set_at <= now && now - m.set_at >= STATUS_MILLIS,
            None => false,
        };
        if over {
            self.status = None;
        }
    }

    fn update(&mut self, path: &str, info: RepoInfo)
        ensures
            final(self)@ == old(self)@.updated(path@, info),
    {
        if let Some(i) = cache::find_place(&self.repos, path) {
            self.repos.set(i, info);
        }
    }

    /// Goes on after a message of the worker on all repositories.
    pub fn drain_worker(&mut self, msg: WorkerMsg, now: u64) -> (r: Option<Action>)
        ensures
            (final(self)@, action_view(r)) == old(self)@.after_message(msg, now),
    {
        let (op, total, done, errors) = match &self.bulk {
            Some(b) => (b.op, b.total, b.done, b.errors),
            None => {
                return None;
            },
        };
        match msg {
            WorkerMsg::Progress { name } => {
                self.bulk = Some(BulkState { op, total, done, current: Some(name), errors });
                None
            },
            WorkerMsg::Done { path, error, updated } => {
                let failed = error.is_some();
                let current = match &self.bulk {
                    Some(b) => match &b.current {
                        Some(c) => Some(c.clone()),
                        None => None,
                    },
                    None => None,
                };
                self.bulk = Some(
                    BulkState {
                        op,
                        total,
                        done: count(done),
                        current,
                        errors: if failed {
                            count(errors)
                        } else {
                            errors
                        },
                    },
                );
                self.update(path.as_str(), updated);
                None
            },
            WorkerMsg::Finished => {
                self.bulk = None;
                let n = text::decimal(total as u64);
                if errors == 0 {
                    let s = text::copy(op.verb()).concat(" all complete (").concat(
                        n.as_str(),
                    ).concat(" repos)");
                    self.set_status(s.as_str(), Level::Success, now);
                } else {
                    let e = text::decimal(errors as u64);
                    let s = text::copy(op.verb()).concat(" finished — ").concat(
                        e.as_str(),
                    ).concat("/").concat(n.as_str()).concat(" failed");
                    self.set_status(s.as_str(), Level::Warn, now);
                }
                Some(Action::SaveCache)
            },
            WorkerMsg::Disconnected => {
                self.bulk = None;
                self.set_status("bulk worker disconnected", Level::Error, now);
                None
            },
        }
    }

    /// Goes on after an event of the worker on one repository.
    pub fn drain_single(&mut self, ev: SingleEvent, now: u64) -> (r: Option<Action>)
        ensures
            (final(self)@, action_view(r)) == old(self)@.after_event(ev, now),
    {
        let mut s = match self.single.take() {
            Some(s) => s,
            None => {
                return None;
            },
        };
        match ev {
            SingleEvent::Progress(p) => {
                s.progress.note(p);
                self.single = Some(s);
                None
            },
            SingleEvent::Done(Ok(info)) => {
                self.update(s.path.as_str(), info);
                let time = fmt_duration(elapsed(s.started, now));
                let told = text::copy(s.op.success_verb()).concat(" ").concat(
                    s.name.as_str(),
                ).concat(" in ").concat(time.as_str());
                self.set_status(told.as_str(), Level::Success, now);
                Some(Action::SaveCache)
            },
            SingleEvent::Done(Err(e)) => {
                let told = s.name.concat(": ").concat(e.as_str());
                self.set_status(told.as_str(), Level::Error, now);
                None
            },
            SingleEvent::Disconnected => {
                let told = s.name.concat(": worker disconnected");
                self.set_status(told.as_str(), Level::Error, now);
                None
            },
        }
    }

    /// Starts an operation on one repository.
    pub fn start_single(&mut self, path: &str, op: SingleOp, now: u64) -> (r: Option<Action>)
        ensures
            (final(self)@, action_view(r)) == old(self)@.starting_single(path@, op, now),
    {
        if self.single.is_some() {
            self.set_status("another operation is already running", Level::Warn, now);
            return None;
        }
        if self.bulk.is_some() {
            self.set_status("bulk operation in progress", Level::Warn, now);
            return None;
        }
        let name = match paths::file_name(path) {
            Some(n) => n,
            None => text::copy(path),
        };
        self.single = Some(
            SingleState {
                op,
                name,
                path: text::copy(path),
                started: now,
                progress: SingleProgress::none(),
            },
        );
        Some(Action::Single { op, path: text::copy(path) })
    }

    /// Starts an operation on all repositories.
    pub fn start_bulk(&mut self, op: BulkOp, now: u64) -> (r: Option<Action>)
        ensures
            (final(self)@, action_view(r)) == old(self)@.starting_bulk(op, now),
    {
        if self.bulk.is_some() {
            self.set_status("bulk operation already running", Level::Warn, now);
            return None;
        }
        if self.single.is_some() {
            self.set_status("another operation is already running", Level::Warn, now);
            return None;
        }
        if self.repos.len() == 0 {
            self.set_status("no repos (run scan first)", Level::Warn, now);
            return None;
        }
        let targets = crate::resolver::every_target(&self.repos);
        let total: usize = self.repos.len();
        self.bulk = Some(BulkState { op, total, done: 0, current: None, errors: 0 });
        Some(Action::Bulk { all: op, targets })
    }

    /// Loads what the current tab shows, unless it is loaded.
    pub fn load_current_tab(&self) -> (r: Option<Action>)
        ensures
            action_view(r) == self@.tab_to_load(),
    {
        match &self.detail {
            Some(d) => if d.repo_index < self.repos.len() && !d.has_loaded(d.tab) {
                let limit: Option<usize> = match d.tab {
                    Tab::History => Some(HISTORY_COUNT),
                    _ => None,
                };
                Some(
                    Action::LoadTab {
                        path: self.repos[d.repo_index].path.clone(),
                        tab: d.tab,
                        limit,
                    },
                )
            } else {
                None
            },
            None => None,
        }
    }

    /// Shows what was loaded for a tab.
    pub fn tab_loaded(&mut self, d: TabData, now: u64)
        ensures
            final(self)@ == old(self)@.tab_loaded(d, now),
    {
        let mut detail = match self.detail.take() {
            Some(detail) => detail,
            None => {
                return ;
            },
        };
        let error = detail.load(d);
        self.detail = Some(detail);
        if let Some(e) = error {
            self.set_status(e.as_str(), Level::Error, now);
        }
    }

    /// Starts a scan of the roots.
    pub fn run_scan(&mut self, roots: Vec<String>, now: u64) -> (r: Option<Action>)
        ensures
            (final(self)@, action_view(r)) == old(self)@.scanning(texts(roots@), now),
    {
        if roots.len() == 0 {
            self.set_status(
                "no scan roots configured (use: gitatlas config roots add)",
                Level::Error,
                now,
            );
            return None;
        }
        self.set_status("scanning…", Level::Info, now);
        Some(Action::Scan(roots))
    }

    /// Takes over what a scan found, and keeps it.
    pub fn scanned(&mut self, repos: Vec<RepoInfo>, now: u64) -> (r: Action)
        ensures
            final(self)@ == old(self)@.scanned(repos@, now),
            r@ == ActionView::SaveCache,
    {
        let n = text::decimal(repos.len() as u64);
        self.repos = repos;
        let s = text::copy("scanned ").concat(n.as_str()).concat(" repos");
        self.set_status(s.as_str(), Level::Success, now);
        Action::SaveCache
    }

    /// Takes over the state of a repository, and keeps it.
    pub fn refreshed(&mut self, info: RepoInfo, now: u64) -> (r: Action)
        ensures
            final(self)@ == old(self)@.refreshed(info, now),
            r@ == ActionView::SaveCache,
    {
        let path = info.path.clone();
        self.update(path.as_str(), info);
        self.set_status("status refreshed", Level::Info, now);
        Action::SaveCache
    }

    /// How long to wait for a key, in milliseconds: shorter while something
    /// is running.
    pub fn poll_millis(&self) -> (r: u64)
        ensures
            r == if self@.single is Some || self@.bulk is Some {
                80u64
            } else {
                200
            },
    {
        if self.single.is_some() || self.bulk.is_some() {
            80
        } else {
            200
        }
    }
}

// ── Laws ─────────────────────────────────

/// At most one operation runs: none starts while another is running.
pub proof fn one_operation_at_a_time(a: AppView, path: Seq<char>, op: SingleOp, all: BulkOp, now: u64)
    requires
        !(a.single is Some && a.bulk is Some),
    ensures
        ({
            let s = a.starting_single(path, op, now).0;
            !(s.single is Some && s.bulk is Some)
        }),
        ({
            let b = a.starting_bulk(all, now).0;
            !(b.single is Some && b.bulk is Some)
        }),
        a.single is Some || a.bulk is Some ==> {
            &&& a.starting_single(path, op, now).1 is None
            &&& a.starting_bulk(all, now).1 is None
        },
{
}

/// Events start no operation, and the end of one leaves the other alone.
pub proof fn events_start_nothing(a: AppView, msg: WorkerMsg, ev: SingleEvent, now: u64)
    ensures
        a.after_message(msg, now).0.single == a.single,
        a.after_message(msg, now).0.bulk is Some ==> a.bulk is Some,
        a.after_event(ev, now).0.bulk == a.bulk,
        a.after_event(ev, now).0.single is Some ==> a.single is Some,
{
}

/// A message is gone once its time is over, and there until then.
pub proof fn messages_last_their_time(
    a: AppView,
    text: Seq<char>,
    level: Level,
    set_at: u64,
    now: u64,
)
    ensures
        a.telling(text, level, set_at).ticked(now).status is Some <==> now < set_at + STATUS_MILLIS,
{
}

/// A tab that was loaded, or could not be, is not loaded again until it is
/// invalidated; then it is.
pub proof fn tabs_load_once(a: AppView, d: TabData, now: u64)
    requires
        a.detail is Some,
        match a.detail.unwrap().tab {
            Tab::Changes => d is Changes,
            Tab::History => d is Commits,
            Tab::Branches => d is Branches,
            Tab::Stashes => d is Stashes,
            Tab::Readme => d is Readme,
        },
        a.detail.unwrap().repo_index < a.repos.len(),
    ensures
        a.tab_loaded(d, now).tab_to_load() is None,
        (AppView {
            detail: Some(a.tab_loaded(d, now).detail.unwrap().invalidated()),
            ..a.tab_loaded(d, now)
        }).tab_to_load() is Some,
{
}

/// No event changes how many repositories there are, nor where they are.
pub proof fn events_keep_the_list(a: AppView, msg: WorkerMsg, ev: SingleEvent, now: u64)
    requires
        msg matches WorkerMsg::Done { path, error, updated } ==> updated.path@ == path@,
        ev matches SingleEvent::Done(Ok(info)) ==> (a.single matches Some(s) ==> info.path@
            == s.path),
    ensures
        a.after_message(msg, now).0.repos.len() == a.repos.len(),
        a.after_event(ev, now).0.repos.len() == a.repos.len(),
        forall|k: int|
            0 <= k < a.repos.len() ==> (#[trigger] a.after_message(msg, now).0.repos[k]).path@
                == a.repos[k].path@,
        forall|k: int|
            0 <= k < a.repos.len() ==> (#[trigger] a.after_event(ev, now).0.repos[k]).path@
                == a.repos[k].path@,
{
    if let WorkerMsg::Done { path, error, updated } = msg {
        cache::place_is_first(a.repos, path@);
    }
    if let SingleEvent::Done(Ok(info)) = ev {
        if let Some(s) = a.single {
            cache::place_is_first(a.repos, s.path);
        }
    }
}

} // verus!
