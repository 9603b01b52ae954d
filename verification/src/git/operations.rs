//! Fetching, pulling and pushing, as a dialogue with the outside.
//!
//! A task asks for one piece of outside work at a time and decides what comes
//! next from the reply.
use ssh2_config::SshConfig;
use vstd::prelude::*;
use vstd::string::*;

use crate::error::{AppError, AppErrorView};
use crate::git::remote_url::{apply_ssh_config, opt_host_view, redact_userinfo, redacted,
    ssh_config_applied};
use crate::git::ssh_config::{opt_str_view, ResolvedHost, ResolvedHostView};
use crate::paths;
use crate::paths::joined_path;
use crate::text;
use crate::text::{at_most, opt_view, present, text_in, texts, trimmed};

verus! {

// ── Progress ─────────────────────────────

/// What a running operation reports.
#[derive(Debug)]
pub enum ProgressEvent {
    /// What is being done, such as "fetching origin".
    Stage(String),
    /// Objects and bytes that arrived.
    Transfer {
        received_bytes: usize,
        indexed_objects: usize,
        received_objects: usize,
        total_objects: usize,
    },
    /// Objects and bytes that were sent.
    PushTransfer { current: usize, total: usize, bytes: usize },
    /// A line that the server sent for the user.
    Sideband(String),
    /// A reference that was updated here.
    Tip(String),
    /// A step of a rebase.
    RebaseStep { current: usize, total: usize },
}

pub enum EventView {
    Stage(Seq<char>),
    Transfer {
        received_bytes: usize,
        indexed_objects: usize,
        received_objects: usize,
        total_objects: usize,
    },
    PushTransfer { current: usize, total: usize, bytes: usize },
    Sideband(Seq<char>),
    Tip(Seq<char>),
    RebaseStep { current: usize, total: usize },
}

impl View for ProgressEvent {
    type V = EventView;

    open spec fn view(&self) -> EventView {
        match self {
            ProgressEvent::Stage(s) => EventView::Stage(s@),
            ProgressEvent::Transfer {
                received_bytes,
                indexed_objects,
                received_objects,
                total_objects,
            } => EventView::Transfer {
                received_bytes: *received_bytes,
                indexed_objects: *indexed_objects,
                received_objects: *received_objects,
                total_objects: *total_objects,
            },
            ProgressEvent::PushTransfer { current, total, bytes } => EventView::PushTransfer {
                current: *current,
                total: *total,
                bytes: *bytes,
            },
            ProgressEvent::Sideband(s) => EventView::Sideband(s@),
            ProgressEvent::Tip(s) => EventView::Tip(s@),
            ProgressEvent::RebaseStep { current, total } => EventView::RebaseStep {
                current: *current,
                total: *total,
            },
        }
    }
}

pub open spec fn events_view(v: Seq<ProgressEvent>) -> Seq<EventView> {
    v.map_values(|e: ProgressEvent| e@)
}

/// The place of the first line end of `s` from `i` on, or the length of `s`.
pub open spec fn line_end(s: Seq<char>, i: int) -> int
    decreases s.len() - i,
{
    if i >= s.len() {
        s.len() as int
    } else if s[i] == '\n' || s[i] == '\r' {
        i
    } else {
        line_end(s, i + 1)
    }
}

pub proof fn line_end_in_range(s: Seq<char>, i: int)
    requires
        0 <= i <= s.len(),
    ensures
        i <= line_end(s, i) <= s.len(),
    decreases s.len() - i,
{
    if i < s.len() && s[i] != '\n' && s[i] != '\r' {
        line_end_in_range(s, i + 1);
    }
}

/// A text alone, or nothing for an empty one.
pub open spec fn unless_empty(s: Seq<char>) -> Seq<Seq<char>> {
    if s.len() == 0 {
        seq![]
    } else {
        seq![s]
    }
}

/// The trimmed lines of `s` from `i` on that are not empty.
pub open spec fn spoken_from(s: Seq<char>, i: int) -> Seq<Seq<char>>
    decreases s.len() - i,
{
    let e = line_end(s, i);
    if 0 <= i <= e < s.len() {
        unless_empty(trimmed(s.subrange(i, e))) + spoken_from(s, e + 1)
    } else if 0 <= i <= s.len() {
        unless_empty(trimmed(s.subrange(i, s.len() as int)))
    } else {
        seq![]
    }
}

/// The lines that a server sends for the user: each trimmed, the empty ones
/// left out. Bytes that are no text hold none.
pub open spec fn spoken(bytes: Seq<u8>) -> Seq<Seq<char>> {
    match text_in(bytes) {
        Some(s) => spoken_from(s, 0),
        None => seq![],
    }
}

/// The lines that a server sends for the user.
pub fn sideband_lines(bytes: &Vec<u8>) -> (r: Vec<String>)
    ensures
        texts(r@) == spoken(bytes@),
{
    match text::utf8_text(bytes) {
        Some(s) => lines_said(s.as_str()),
        None => {
            let none: Vec<String> = Vec::new();
            assert(texts(none@) =~= seq![]);
            none
        },
    }
}

/// The trimmed lines of a text that are not empty.
pub fn lines_said(s: &str) -> (r: Vec<String>)
    ensures
        texts(r@) == spoken_from(s@, 0),
{
    let mut out: Vec<String> = Vec::new();
    assert(texts(out@) =~= seq![]);
    let cs = text::chars_of(s);
    let ghost all = spoken_from(s@, 0);
    let mut start: usize = 0;
    let mut i: usize = 0;
    assert(texts(out@) + spoken_from(s@, 0) =~= all);
    while i < cs.len()
        invariant
            cs@ == s@,
            start <= i <= cs@.len(),
            line_end(s@, start as int) == line_end(s@, i as int),
            texts(out@) + spoken_from(s@, start as int) == all,
        decreases cs@.len() - i,
    {
        if cs[i] == '\n' || cs[i] == '\r' {
            let piece = text::text_of(&cs, start, i);
            let line = text::trim(piece.as_str());
            assert(piece@ == s@.subrange(start as int, i as int));
            let ghost before = texts(out@);
            if text::length(line.as_str()) > 0 {
                proof {
                    text::texts_push(out@, line);
                }
                out.push(line);
                assert(texts(out@) =~= before + seq![line@]);
            } else {
                assert(texts(out@) =~= before + Seq::<Seq<char>>::empty());
            }
            assert(texts(out@) + spoken_from(s@, i + 1) =~= before + (unless_empty(line@)
                + spoken_from(s@, i + 1)));
            start = i + 1;
        }
        i = i + 1;
    }
    let piece = text::text_of(&cs, start, i);
    let line = text::trim(piece.as_str());
    let ghost before = texts(out@);
    if text::length(line.as_str()) > 0 {
        proof {
            text::texts_push(out@, line);
        }
        out.push(line);
        assert(texts(out@) =~= before + seq![line@]);
    } else {
        assert(texts(out@) =~= before + Seq::<Seq<char>>::empty());
    }
    out
}

/// An object id that stands for no object: nothing but zeros.
pub open spec fn is_zero_id(s: Seq<char>) -> bool {
    forall|i: int| 0 <= i < s.len() ==> #[trigger] s[i] == '0'
}

/// What the user is told of an updated reference.
pub open spec fn tip_text(name: Seq<char>, old: Seq<char>, new: Seq<char>) -> Seq<char> {
    if is_zero_id(old) {
        name + " (new)"@
    } else if is_zero_id(new) {
        name + " (deleted)"@
    } else {
        name + " "@ + at_most(old, 7) + ".."@ + at_most(new, 7)
    }
}

fn zero_id(s: &str) -> (r: bool)
    ensures
        r == is_zero_id(s@),
{
    let cs = text::chars_of(s);
    let mut i: usize = 0;
    while i < cs.len()
        invariant
            cs@ == s@,
            i <= cs@.len(),
            forall|j: int| 0 <= j < i ==> #[trigger] s@[j] == '0',
        decreases cs@.len() - i,
    {
        if cs[i] != '0' {
            return false;
        }
        i = i + 1;
    }
    true
}

/// What the user is told of a reference that moved from one object to another.
pub fn tip_label(name: &str, old: &str, new: &str) -> (r: String)
    ensures
        r@ == tip_text(name@, old@, new@),
{
    if zero_id(old) {
        text::copy(name).concat(" (new)")
    } else if zero_id(new) {
        text::copy(name).concat(" (deleted)")
    } else {
        let a = text::cut_to(old, 7);
        let b = text::cut_to(new, 7);
        text::copy(name).concat(" ").concat(a.as_str()).concat("..").concat(b.as_str())
    }
}

/// Where an agent listens, for an entry of `/private/tmp` that belongs to one.
pub open spec fn agent_socket_path(name: Seq<char>) -> Option<Seq<char>> {
    if "com.apple.launchd."@.is_prefix_of(name) {
        Some(joined_path(joined_path("/private/tmp"@, name), "Listeners"@))
    } else {
        None
    }
}

/// Where an agent listens, for an entry of `/private/tmp` that belongs to one.
pub fn agent_socket(name: &str) -> (r: Option<String>)
    ensures
        opt_view(r) == agent_socket_path(name@),
{
    if text::starts_with(name, "com.apple.launchd.") {
        let dir = paths::join("/private/tmp", name);
        Some(paths::join(dir.as_str(), "Listeners"))
    } else {
        None
    }
}

// ── Tasks ────────────────────────────────

#[derive(Debug, Clone, Copy, PartialEq, Eq, Structural)]
pub enum Goal {
    Fetch,
    Pull,
    Push,
}

/// What a task waits for.
#[derive(Debug, Clone, Copy, PartialEq, Eq, Structural)]
pub enum Phase {
    ListRemotes,
    ReadRemote,
    FetchRemote,
    ReadHead,
    FindUpstream,
    PeelUpstream,
    StartRebase,
    NextPick,
    CheckConflicts,
    CommitPick,
    AbortRebase,
    FinishRebase,
    ReadOrigin,
    PushBranch,
    Over,
}

/// A running fetch, pull or push.
pub struct RemoteTask {
    pub goal: Goal,
    /// Somebody listens to what the task reports.
    pub watched: bool,
    pub path: String,
    pub phase: Phase,
    pub remotes: Vec<String>,
    pub next_remote: usize,
    pub branch: String,
    pub picked: usize,
    pub picks: usize,
}

pub struct RemoteTaskView {
    pub goal: Goal,
    pub watched: bool,
    pub path: Seq<char>,
    pub phase: Phase,
    pub remotes: Seq<Seq<char>>,
    pub next_remote: int,
    pub branch: Seq<char>,
    pub picked: int,
    pub picks: usize,
}

impl View for RemoteTask {
    type V = RemoteTaskView;

    open spec fn view(&self) -> RemoteTaskView {
        RemoteTaskView {
            goal: self.goal,
            watched: self.watched,
            path: self.path@,
            phase: self.phase,
            remotes: texts(self.remotes@),
            next_remote: self.next_remote as int,
            branch: self.branch@,
            picked: self.picked as int,
            picks: self.picks,
        }
    }
}

/// Outside work.
pub enum RemoteRequest {
    /// Open the repository and list the names of its remotes.
    ListRemotes(String),
    /// Look a remote up.
    ReadRemote(String),
    /// Fetch from an address by the given refspecs.
    Fetch { url: String, refspecs: Vec<String>, host: Option<ResolvedHost> },
    /// Open the repository and read the short name of HEAD.
    ReadHead(String),
    /// Look a reference up.
    FindReference(String),
    /// Find the commit of a reference.
    PeelReference(String),
    /// Start to rebase onto a reference.
    StartRebase(String),
    /// Apply the next commit of the rebase.
    NextPick,
    /// Look for conflicts in the index.
    CheckConflicts,
    /// Commit what was applied.
    CommitPick,
    AbortRebase,
    FinishRebase,
    /// Look the remote `origin` up.
    ReadOrigin,
    /// Push a refspec to an address.
    Push { url: String, refspec: String, host: Option<ResolvedHost> },
}

pub enum RemoteRequestView {
    ListRemotes(Seq<char>),
    ReadRemote(Seq<char>),
    Fetch { url: Seq<char>, refspecs: Seq<Seq<char>>, host: Option<ResolvedHostView> },
    ReadHead(Seq<char>),
    FindReference(Seq<char>),
    PeelReference(Seq<char>),
    StartRebase(Seq<char>),
    NextPick,
    CheckConflicts,
    CommitPick,
    AbortRebase,
    FinishRebase,
    ReadOrigin,
    Push { url: Seq<char>, refspec: Seq<char>, host: Option<ResolvedHostView> },
}

impl View for RemoteRequest {
    type V = RemoteRequestView;

    open spec fn view(&self) -> RemoteRequestView {
        match self {
            RemoteRequest::ListRemotes(s) => RemoteRequestView::ListRemotes(s@),
            RemoteRequest::ReadRemote(s) => RemoteRequestView::ReadRemote(s@),
            RemoteRequest::Fetch { url, refspecs, host } => RemoteRequestView::Fetch {
                url: url@,
                refspecs: texts(refspecs@),
                host: opt_host_view(*host),
            },
            RemoteRequest::ReadHead(s) => RemoteRequestView::ReadHead(s@),
            RemoteRequest::FindReference(s) => RemoteRequestView::FindReference(s@),
            RemoteRequest::PeelReference(s) => RemoteRequestView::PeelReference(s@),
            RemoteRequest::StartRebase(s) => RemoteRequestView::StartRebase(s@),
            RemoteRequest::NextPick => RemoteRequestView::NextPick,
            RemoteRequest::CheckConflicts => RemoteRequestView::CheckConflicts,
            RemoteRequest::CommitPick => RemoteRequestView::CommitPick,
            RemoteRequest::AbortRebase => RemoteRequestView::AbortRebase,
            RemoteRequest::FinishRebase => RemoteRequestView::FinishRebase,
            RemoteRequest::ReadOrigin => RemoteRequestView::ReadOrigin,
            RemoteRequest::Push { url, refspec, host } => RemoteRequestView::Push {
                url: url@,
                refspec: refspec@,
                host: opt_host_view(*host),
            },
        }
    }
}

/// What came of outside work.
pub enum RemoteReply {
    Failed(AppError),
    /// It is done.
    Done,
    /// The names of the remotes; none where a name is no text.
    Names(Vec<Option<String>>),
    /// The address and the fetch refspecs of a remote, as far as they are
    /// there and are texts.
    Remote { url: Option<String>, refspecs: Vec<Option<String>> },
    /// The short name of HEAD.
    Head(Option<String>),
    /// The number of commits to rebase.
    Picks(usize),
    /// Whether another commit was applied.
    Picked(bool),
    /// Whether there are conflicts.
    Conflicts(bool),
    /// The addresses of `origin`.
    Origin { push_url: Option<String>, url: Option<String> },
}

/// What a task does next.
pub enum RemoteStep {
    Ask(RemoteRequest),
    Done,
    Failed(AppError),
}

pub enum RemoteStepView {
    Ask(RemoteRequestView),
    Done,
    Failed(AppErrorView),
}

impl View for RemoteStep {
    type V = RemoteStepView;

    open spec fn view(&self) -> RemoteStepView {
        match self {
            RemoteStep::Ask(r) => RemoteStepView::Ask(r@),
            RemoteStep::Done => RemoteStepView::Done,
            RemoteStep::Failed(e) => RemoteStepView::Failed(e@),
        }
    }
}

/// What a task reports, and what it does next.
pub struct Turn {
    pub events: Vec<ProgressEvent>,
    pub step: RemoteStep,
}

pub struct TurnView {
    pub events: Seq<EventView>,
    pub step: RemoteStepView,
}

impl View for Turn {
    type V = TurnView;

    open spec fn view(&self) -> TurnView {
        TurnView { events: events_view(self.events@), step: self.step@ }
    }
}

pub open spec fn or_empty(s: Option<String>) -> Seq<char> {
    match s {
        Some(t) => t@,
        None => ""@,
    }
}

pub open spec fn upstream_name(branch: Seq<char>) -> Seq<char> {
    "refs/remotes/origin/"@ + branch
}

pub open spec fn push_refspec(branch: Seq<char>) -> Seq<char> {
    "refs/heads/"@ + branch + ":refs/heads/"@ + branch
}

/// What is reported of an address that the configuration changed.
pub open spec fn rewrite_report(url: Seq<char>, effective: Seq<char>) -> Seq<EventView> {
    if effective != url {
        seq![
            EventView::Stage("ssh_config: "@ + redacted(url) + " → "@ + redacted(effective)),
        ]
    } else {
        seq![]
    }
}

impl RemoteTaskView {
    /// The task that was just asked for.
    pub open spec fn fresh(goal: Goal, path: Seq<char>, watched: bool) -> RemoteTaskView {
        RemoteTaskView {
            goal,
            watched,
            path,
            phase: if goal == Goal::Push {
                Phase::ReadHead
            } else {
                Phase::ListRemotes
            },
            remotes: seq![],
            next_remote: 0,
            branch: ""@,
            picked: 0,
            picks: 0,
        }
    }

    /// The first thing that a task asks for.
    pub open spec fn opening(self) -> TurnView {
        TurnView {
            events: seq![],
            step: RemoteStepView::Ask(
                if self.goal == Goal::Push {
                    RemoteRequestView::ReadHead(self.path)
                } else {
                    RemoteRequestView::ListRemotes(self.path)
                },
            ),
        }
    }

    pub open spec fn tell(self, events: Seq<EventView>) -> Seq<EventView> {
        if self.watched {
            events
        } else {
            seq![]
        }
    }

    /// Report, ask, and wait in the given phase.
    pub open spec fn ask(
        self,
        phase: Phase,
        events: Seq<EventView>,
        request: RemoteRequestView,
    ) -> (RemoteTaskView, TurnView) {
        (
            RemoteTaskView { phase, ..self },
            TurnView { events: self.tell(events), step: RemoteStepView::Ask(request) },
        )
    }

    pub open spec fn finish(self, step: RemoteStepView) -> (RemoteTaskView, TurnView) {
        (RemoteTaskView { phase: Phase::Over, ..self }, TurnView { events: seq![], step })
    }

    /// Go on with the next remote; after the last one a fetch is done and a
    /// pull goes on with HEAD.
    pub open spec fn go_on(self) -> (RemoteTaskView, TurnView) {
        if self.next_remote < self.remotes.len() {
            let name = self.remotes[self.next_remote];
            self.ask(
                Phase::ReadRemote,
                seq![EventView::Stage("fetching "@ + name)],
                RemoteRequestView::ReadRemote(name),
            )
        } else if self.goal == Goal::Pull {
            self.ask(Phase::ReadHead, seq![], RemoteRequestView::ReadHead(self.path))
        } else {
            self.finish(RemoteStepView::Done)
        }
    }

    /// The error that a failure of the awaited work ends the task with.
    pub open spec fn error_for(self, e: AppErrorView) -> AppErrorView {
        match self.phase {
            Phase::FindUpstream => AppErrorView::General(
                "No upstream branch found for "@ + self.branch,
            ),
            Phase::ReadOrigin => AppErrorView::General("No 'origin' remote found"@),
            _ => e,
        }
    }

    /// The reply is one to what the task waits for.
    pub open spec fn accepts(self, reply: RemoteReply) -> bool {
        match reply {
            RemoteReply::Failed(_) => self.phase != Phase::Over,
            RemoteReply::Done => match self.phase {
                Phase::FetchRemote => self.next_remote < self.remotes.len(),
                Phase::FindUpstream
                | Phase::PeelUpstream
                | Phase::CommitPick
                | Phase::AbortRebase
                | Phase::FinishRebase
                | Phase::PushBranch => true,
                _ => false,
            },
            RemoteReply::Names(_) => self.phase == Phase::ListRemotes,
            RemoteReply::Remote { .. } => self.phase == Phase::ReadRemote,
            RemoteReply::Head(_) => self.phase == Phase::ReadHead,
            RemoteReply::Picks(_) => self.phase == Phase::StartRebase,
            RemoteReply::Picked(more) => self.phase == Phase::NextPick && (more ==> self.picked
                < usize::MAX),
            RemoteReply::Conflicts(_) => self.phase == Phase::CheckConflicts,
            RemoteReply::Origin { .. } => self.phase == Phase::ReadOrigin,
        }
    }

    /// What a reply leads to.
    pub open spec fn next(
        self,
        reply: RemoteReply,
        config: Option<&SshConfig>,
        home: Option<Seq<char>>,
    ) -> (RemoteTaskView, TurnView) {
        match reply {
            RemoteReply::Failed(e) => self.finish(RemoteStepView::Failed(self.error_for(e@))),
            RemoteReply::Names(names) => RemoteTaskView {
                remotes: present(names@),
                next_remote: 0,
                ..self
            }.go_on(),
            RemoteReply::Remote { url, refspecs } => {
                let (effective, host) = ssh_config_applied(or_empty(url), config, home);
                self.ask(
                    Phase::FetchRemote,
                    rewrite_report(or_empty(url), effective),
                    RemoteRequestView::Fetch {
                        url: effective,
                        refspecs: present(refspecs@),
                        host,
                    },
                )
            },
            RemoteReply::Head(None) => self.finish(
                RemoteStepView::Failed(AppErrorView::General("HEAD is not on a branch"@)),
            ),
            RemoteReply::Head(Some(name)) => {
                let on = RemoteTaskView { branch: name@, ..self };
                if self.goal == Goal::Push {
                    on.ask(Phase::ReadOrigin, seq![], RemoteRequestView::ReadOrigin)
                } else {
                    on.ask(
                        Phase::FindUpstream,
                        seq![],
                        RemoteRequestView::FindReference(upstream_name(name@)),
                    )
                }
            },
            RemoteReply::Picks(n) => RemoteTaskView { picked: 0, picks: n, ..self }.ask(
                Phase::NextPick,
                seq![],
                RemoteRequestView::NextPick,
            ),
            RemoteReply::Picked(more) => if more {
                RemoteTaskView { picked: self.picked + 1, ..self }.ask(
                    Phase::CheckConflicts,
                    seq![
                        EventView::RebaseStep {
                            current: (self.picked + 1) as usize,
                            total: self.picks,
                        },
                    ],
                    RemoteRequestView::CheckConflicts,
                )
            } else {
                self.ask(Phase::FinishRebase, seq![], RemoteRequestView::FinishRebase)
            },
            RemoteReply::Conflicts(any) => if any {
                self.ask(Phase::AbortRebase, seq![], RemoteRequestView::AbortRebase)
            } else {
                self.ask(Phase::CommitPick, seq![], RemoteRequestView::CommitPick)
            },
            RemoteReply::Origin { push_url, url } => {
                let original = match push_url {
                    Some(u) => u@,
                    None => or_empty(url),
                };
                let (effective, host) = ssh_config_applied(original, config, home);
                self.ask(
                    Phase::PushBranch,
                    rewrite_report(original, effective) + seq![
                        EventView::Stage("pushing "@ + self.branch + " → origin"@),
                    ],
                    RemoteRequestView::Push {
                        url: effective,
                        refspec: push_refspec(self.branch),
                        host,
                    },
                )
            },
            RemoteReply::Done => match self.phase {
                Phase::FetchRemote => RemoteTaskView {
                    next_remote: self.next_remote + 1,
                    ..self
                }.go_on(),
                Phase::FindUpstream => self.ask(
                    Phase::PeelUpstream,
                    seq![],
                    RemoteRequestView::PeelReference(upstream_name(self.branch)),
                ),
                Phase::PeelUpstream => self.ask(
                    Phase::StartRebase,
                    seq![EventView::Stage("rebasing onto origin/"@ + self.branch)],
                    RemoteRequestView::StartRebase(upstream_name(self.branch)),
                ),
                Phase::CommitPick => self.ask(
                    Phase::NextPick,
                    seq![],
                    RemoteRequestView::NextPick,
                ),
                Phase::AbortRebase => self.finish(
                    RemoteStepView::Failed(
                        AppErrorView::General("Rebase aborted: conflicts detected"@),
                    ),
                ),
                _ => self.finish(RemoteStepView::Done),
            },
        }
    }
}

impl RemoteTask {
    fn new(goal: Goal, path: &str, watched: bool) -> (r: RemoteTask)
        ensures
            r@ == RemoteTaskView::fresh(goal, path@, watched),
    {
        let remotes: Vec<String> = Vec::new();
        assert(texts(remotes@) =~= seq![]);
        RemoteTask {
            goal,
            watched,
            path: text::copy(path),
            phase: if goal == Goal::Push {
                Phase::ReadHead
            } else {
                Phase::ListRemotes
            },
            remotes,
            next_remote: 0,
            branch: text::copy(""),
            picked: 0,
            picks: 0,
        }
    }

    fn open(self) -> (r: (RemoteTask, Turn))
        ensures
            r.0 == self,
            r.1@ == self@.opening(),
    {
        let path = self.path.clone();
        let events: Vec<ProgressEvent> = Vec::new();
        assert(events_view(events@) =~= seq![]);
        let request = if self.goal == Goal::Push {
            RemoteRequest::ReadHead(path)
        } else {
            RemoteRequest::ListRemotes(path)
        };
        (self, Turn { events, step: RemoteStep::Ask(request) })
    }

    fn ask(self, phase: Phase, events: Vec<ProgressEvent>, request: RemoteRequest) -> (r: (
        RemoteTask,
        Turn,
    ))
        ensures
            (r.0@, r.1@) == self@.ask(phase, events_view(events@), request@),
    {
        let told = if self.watched {
            events
        } else {
            let none: Vec<ProgressEvent> = Vec::new();
            assert(events_view(none@) =~= seq![]);
            none
        };
        (
            RemoteTask { phase, ..self },
            Turn { events: told, step: RemoteStep::Ask(request) },
        )
    }

    fn ask_quietly(self, phase: Phase, request: RemoteRequest) -> (r: (RemoteTask, Turn))
        ensures
            (r.0@, r.1@) == self@.ask(phase, seq![], request@),
    {
        let none: Vec<ProgressEvent> = Vec::new();
        assert(events_view(none@) =~= seq![]);
        self.ask(phase, none, request)
    }

    fn ask_at_stage(self, phase: Phase, stage: String, request: RemoteRequest) -> (r: (
        RemoteTask,
        Turn,
    ))
        ensures
            (r.0@, r.1@) == self@.ask(phase, seq![EventView::Stage(stage@)], request@),
    {
        let mut events: Vec<ProgressEvent> = Vec::new();
        events.push(ProgressEvent::Stage(stage));
        assert(events_view(events@) =~= seq![EventView::Stage(stage@)]);
        self.ask(phase, events, request)
    }

    fn finish(self, step: RemoteStep) -> (r: (RemoteTask, Turn))
        ensures
            (r.0@, r.1@) == self@.finish(step@),
    {
        let none: Vec<ProgressEvent> = Vec::new();
        assert(events_view(none@) =~= seq![]);
        (RemoteTask { phase: Phase::Over, ..self }, Turn { events: none, step })
    }

    fn go_on(self) -> (r: (RemoteTask, Turn))
        ensures
            (r.0@, r.1@) == self@.go_on(),
    {
        if self.next_remote < self.remotes.len() {
            let name = self.remotes[self.next_remote].clone();
            assert(self@.remotes[self.next_remote as int] == name@);
            let stage = text::copy("fetching ").concat(name.as_str());
            self.ask_at_stage(Phase::ReadRemote, stage, RemoteRequest::ReadRemote(name))
        } else if self.goal == Goal::Pull {
            let path = self.path.clone();
            self.ask_quietly(Phase::ReadHead, RemoteRequest::ReadHead(path))
        } else {
            self.finish(RemoteStep::Done)
        }
    }

    fn fail(self, e: AppError) -> (r: (RemoteTask, Turn))
        ensures
            (r.0@, r.1@) == self@.finish(RemoteStepView::Failed(self@.error_for(e@))),
    {
        let error = match self.phase {
            Phase::FindUpstream => {
                let s = text::copy("No upstream branch found for ").concat(self.branch.as_str());
                AppError::msg(s.as_str())
            },
            Phase::ReadOrigin => AppError::msg("No 'origin' remote found"),
            _ => e,
        };
        self.finish(RemoteStep::Failed(error))
    }

    /// Whether the reply is one to what the task waits for.
    pub fn accepts(&self, reply: &RemoteReply) -> (r: bool)
        ensures
            r == self@.accepts(*reply),
    {
        match reply {
            RemoteReply::Failed(_) => self.phase != Phase::Over,
            RemoteReply::Done => match self.phase {
                Phase::FetchRemote => self.next_remote < self.remotes.len(),
                Phase::FindUpstream
                | Phase::PeelUpstream
                | Phase::CommitPick
                | Phase::AbortRebase
                | Phase::FinishRebase
                | Phase::PushBranch => true,
                _ => false,
            },
            RemoteReply::Names(_) => self.phase == Phase::ListRemotes,
            RemoteReply::Remote { .. } => self.phase == Phase::ReadRemote,
            RemoteReply::Head(_) => self.phase == Phase::ReadHead,
            RemoteReply::Picks(_) => self.phase == Phase::StartRebase,
            RemoteReply::Picked(more) => self.phase == Phase::NextPick && (!*more || self.picked
                < usize::MAX),
            RemoteReply::Conflicts(_) => self.phase == Phase::CheckConflicts,
            RemoteReply::Origin { .. } => self.phase == Phase::ReadOrigin,
        }
    }

    /// Goes on after a reply. The ssh configuration and the home directory
    /// decide how addresses are rewritten.
    pub fn advance(
        self,
        reply: RemoteReply,
        config: Option<&SshConfig>,
        home: Option<&str>,
    ) -> (r: (RemoteTask, Turn))
        requires
            self@.accepts(reply),
        ensures
            (r.0@, r.1@) == self@.next(reply, config, opt_str_view(home)),
    {
        match reply {
            RemoteReply::Failed(e) => self.fail(e),
            RemoteReply::Names(names) => RemoteTask {
                remotes: text::keep_present(names),
                next_remote: 0,
                ..self
            }.go_on(),
            RemoteReply::Remote { url, refspecs } => {
                let original = match url {
                    Some(u) => u,
                    None => text::copy(""),
                };
                let (effective, host) = apply_ssh_config(original.as_str(), config, home);
                let events = report_rewrite(original.as_str(), effective.as_str());
                let refspecs = text::keep_present(refspecs);
                self.ask(
                    Phase::FetchRemote,
                    events,
                    RemoteRequest::Fetch { url: effective, refspecs, host },
                )
            },
            RemoteReply::Head(None) => self.finish(
                RemoteStep::Failed(AppError::msg("HEAD is not on a branch")),
            ),
            RemoteReply::Head(Some(name)) => {
                let upstream = text::copy("refs/remotes/origin/").concat(name.as_str());
                let on = RemoteTask { branch: name, ..self };
                if on.goal == Goal::Push {
                    on.ask_quietly(Phase::ReadOrigin, RemoteRequest::ReadOrigin)
                } else {
                    on.ask_quietly(Phase::FindUpstream, RemoteRequest::FindReference(upstream))
                }
            },
            RemoteReply::Picks(n) => RemoteTask { picked: 0, picks: n, ..self }.ask_quietly(
                Phase::NextPick,
                RemoteRequest::NextPick,
            ),
            RemoteReply::Picked(more) => if more {
                let current: usize = self.picked + 1;
                let total: usize = self.picks;
                let mut events: Vec<ProgressEvent> = Vec::new();
                events.push(ProgressEvent::RebaseStep { current, total });
                assert(events_view(events@) =~= seq![EventView::RebaseStep { current, total }]);
                RemoteTask { picked: current, ..self }.ask(
                    Phase::CheckConflicts,
                    events,
                    RemoteRequest::CheckConflicts,
                )
            } else {
                self.ask_quietly(Phase::FinishRebase, RemoteRequest::FinishRebase)
            },
            RemoteReply::Conflicts(any) => if any {
                self.ask_quietly(Phase::AbortRebase, RemoteRequest::AbortRebase)
            } else {
                self.ask_quietly(Phase::CommitPick, RemoteRequest::CommitPick)
            },
            RemoteReply::Origin { push_url, url } => {
                let original = match push_url {
                    Some(u) => u,
                    None => match url {
                        Some(u) => u,
                        None => text::copy(""),
                    },
                };
                let (effective, host) = apply_ssh_config(original.as_str(), config, home);
                let mut events = report_rewrite(original.as_str(), effective.as_str());
                let stage = text::copy("pushing ").concat(self.branch.as_str()).concat(
                    " → origin",
                );
                let ghost before = events_view(events@);
                events.push(ProgressEvent::Stage(stage));
                assert(events_view(events@) =~= before + seq![EventView::Stage(stage@)]);
                let refspec = text::copy("refs/heads/").concat(self.branch.as_str()).concat(
                    ":refs/heads/",
                ).concat(self.branch.as_str());
                self.ask(
                    Phase::PushBranch,
                    events,
                    RemoteRequest::Push { url: effective, refspec, host },
                )
            },
            RemoteReply::Done => self.carry_on(),
        }
    }

    /// Goes on after outside work that gives nothing back.
    fn carry_on(self) -> (r: (RemoteTask, Turn))
        requires
            self@.accepts(RemoteReply::Done),
        ensures
            forall|config: Option<&SshConfig>, home: Option<Seq<char>>|
                (r.0@, r.1@) == #[trigger] self@.next(RemoteReply::Done, config, home),
    {
        match self.phase {
            Phase::FetchRemote => {
                let count: usize = self.remotes.len();
                assert(self.next_remote < count);
                let n: usize = self.next_remote + 1;
                RemoteTask { next_remote: n, ..self }.go_on()
            },
            Phase::FindUpstream => {
                let name = text::copy("refs/remotes/origin/").concat(self.branch.as_str());
                self.ask_quietly(Phase::PeelUpstream, RemoteRequest::PeelReference(name))
            },
            Phase::PeelUpstream => {
                let name = text::copy("refs/remotes/origin/").concat(self.branch.as_str());
                let stage = text::copy("rebasing onto origin/").concat(self.branch.as_str());
                self.ask_at_stage(Phase::StartRebase, stage, RemoteRequest::StartRebase(name))
            },
            Phase::CommitPick => self.ask_quietly(Phase::NextPick, RemoteRequest::NextPick),
            Phase::AbortRebase => self.finish(
                RemoteStep::Failed(AppError::msg("Rebase aborted: conflicts detected")),
            ),
            _ => self.finish(RemoteStep::Done),
        }
    }
}

/// What is reported of an address that the configuration changed.
fn report_rewrite(url: &str, effective: &str) -> (r: Vec<ProgressEvent>)
    ensures
        events_view(r@) == rewrite_report(url@, effective@),
{
    let mut events: Vec<ProgressEvent> = Vec::new();
    assert(events_view(events@) =~= seq![]);
    if !text::same(effective, url) {
        let a = redact_userinfo(url);
        let b = redact_userinfo(effective);
        let stage = text::copy("ssh_config: ").concat(a.as_str()).concat(" → ").concat(
            b.as_str(),
        );
        events.push(ProgressEvent::Stage(stage));
        assert(events_view(events@) =~= seq![EventView::Stage(stage@)]);
    }
    events
}

/// Fetches every remote of the repository at `path`.
pub fn fetch_repo(path: &str) -> (r: (RemoteTask, Turn))
    ensures
        r.0@ == RemoteTaskView::fresh(Goal::Fetch, path@, false),
        r.1@ == r.0@.opening(),
{
    fetch_repo_with_progress(path, false)
}

/// Fetches every remote of the repository at `path`, and reports if watched.
pub fn fetch_repo_with_progress(path: &str, watched: bool) -> (r: (RemoteTask, Turn))
    ensures
        r.0@ == RemoteTaskView::fresh(Goal::Fetch, path@, watched),
        r.1@ == r.0@.opening(),
{
    RemoteTask::new(Goal::Fetch, path, watched).open()
}

/// Fetches, then rebases the current branch onto its counterpart on `origin`.
pub fn pull_rebase_repo(path: &str) -> (r: (RemoteTask, Turn))
    ensures
        r.0@ == RemoteTaskView::fresh(Goal::Pull, path@, false),
        r.1@ == r.0@.opening(),
{
    pull_rebase_repo_with_progress(path, false)
}

/// Fetches and rebases, and reports if watched.
pub fn pull_rebase_repo_with_progress(path: &str, watched: bool) -> (r: (RemoteTask, Turn))
    ensures
        r.0@ == RemoteTaskView::fresh(Goal::Pull, path@, watched),
        r.1@ == r.0@.opening(),
{
    RemoteTask::new(Goal::Pull, path, watched).open()
}

/// Pushes the current branch to the branch of the same name on `origin`.
pub fn push_repo(path: &str) -> (r: (RemoteTask, Turn))
    ensures
        r.0@ == RemoteTaskView::fresh(Goal::Push, path@, false),
        r.1@ == r.0@.opening(),
{
    push_repo_with_progress(path, false)
}

/// Pushes the current branch, and reports if watched.
pub fn push_repo_with_progress(path: &str, watched: bool) -> (r: (RemoteTask, Turn))
    ensures
        r.0@ == RemoteTaskView::fresh(Goal::Push, path@, watched),
        r.1@ == r.0@.opening(),
{
    RemoteTask::new(Goal::Push, path, watched).open()
}

// ── Laws ─────────────────────────────────

/// A task that nobody watches reports nothing.
pub proof fn unwatched_is_silent(
    t: RemoteTaskView,
    reply: RemoteReply,
    config: Option<&SshConfig>,
    home: Option<Seq<char>>,
)
    requires
        !t.watched,
        t.accepts(reply),
    ensures
        t.next(reply, config, home).1.events.len() == 0,
        !t.next(reply, config, home).0.watched,
{
}

/// Watching changes nothing but the reports.
pub proof fn watching_changes_nothing(
    t: RemoteTaskView,
    reply: RemoteReply,
    config: Option<&SshConfig>,
    home: Option<Seq<char>>,
)
    requires
        t.accepts(reply),
    ensures
        ({
            let u = RemoteTaskView { watched: !t.watched, ..t };
            &&& u.next(reply, config, home).1.step == t.next(reply, config, home).1.step
            &&& u.next(reply, config, home).0 == (RemoteTaskView {
                watched: !t.watched,
                ..t.next(reply, config, home).0
            })
        }),
{
}

/// Whatever fails, the task ends with an error and does nothing more.
pub proof fn failure_ends_a_task(
    t: RemoteTaskView,
    e: AppError,
    config: Option<&SshConfig>,
    home: Option<Seq<char>>,
)
    requires
        t.accepts(RemoteReply::Failed(e)),
    ensures
        t.next(RemoteReply::Failed(e), config, home).1.step is Failed,
        forall|reply: RemoteReply|
            !(#[trigger] t.next(RemoteReply::Failed(e), config, home).0.accepts(reply)),
{
}

/// A rebase with conflicts is aborted: nothing is committed, and the task
/// ends with an error.
pub proof fn conflicts_abort_a_rebase(
    t: RemoteTaskView,
    reply: RemoteReply,
    config: Option<&SshConfig>,
    home: Option<Seq<char>>,
)
    requires
        t.phase == Phase::CheckConflicts,
    ensures
        ({
            let (u, turn) = t.next(RemoteReply::Conflicts(true), config, home);
            &&& turn.step == RemoteStepView::Ask(RemoteRequestView::AbortRebase)
            &&& (u.accepts(reply) ==> u.next(reply, config, home).1.step is Failed)
        }),
{
}

/// How many replies a fetch still waits for, at most.
pub open spec fn replies_left(t: RemoteTaskView) -> int {
    match t.phase {
        Phase::ReadRemote => 2 * (t.remotes.len() - t.next_remote),
        Phase::FetchRemote => 2 * (t.remotes.len() - t.next_remote) - 1,
        _ => 0,
    }
}

/// A fetch, once it knows the remotes, comes closer to its end with every
/// reply.
pub proof fn a_fetch_ends(
    t: RemoteTaskView,
    reply: RemoteReply,
    config: Option<&SshConfig>,
    home: Option<Seq<char>>,
)
    requires
        t.goal == Goal::Fetch,
        t.phase == Phase::ReadRemote || t.phase == Phase::FetchRemote,
        0 <= t.next_remote < t.remotes.len(),
        t.accepts(reply),
    ensures
        ({
            let (u, turn) = t.next(reply, config, home);
            ||| u.phase == Phase::Over && !(turn.step is Ask)
            ||| {
                &&& u.goal == Goal::Fetch
                &&& u.phase == Phase::ReadRemote || u.phase == Phase::FetchRemote
                &&& 0 <= u.next_remote < u.remotes.len()
                &&& u.remotes == t.remotes
                &&& 0 < replies_left(u) < replies_left(t)
            }
        }),
{
}

} // verus!
