//! What commands have to say, and how it reads.
use vstd::prelude::*;
use vstd::string::*;

use crate::git::detail::short_id;
use crate::models::{BranchInfo, CommitFileChange, CommitInfo, FileChange, GitProfile, RemoteInfo,
    RepoInfo, StashEntry};
use crate::output;
use crate::output::{as_lines, branch_line, changes_shown, commit_line, diff_line,
    file_line, lines_printed, listed, plain_line, printed_view, remote_table, repo_status,
    repo_table, stash_line};
use crate::output::{Printed, PrintedView};
use crate::style::{bare, followed_by, line_view, lines_view, note, one, shown, tinted};
use crate::style::{Color, Span, SpanView, Style};
use crate::text;
use crate::text::{decimal_of, joined, lines_of, opt_view, texts};

verus! {

/// An operation on several repositories, or a push.
#[derive(Debug, Clone, Copy, PartialEq, Eq, Structural)]
pub enum Op {
    Fetch,
    Pull,
    Push,
}

pub open spec fn op_text(op: Op) -> Seq<char> {
    match op {
        Op::Fetch => "fetch"@,
        Op::Pull => "pull"@,
        Op::Push => "push"@,
    }
}

pub fn op_name(op: Op) -> (r: &'static str)
    ensures
        r@ == op_text(op),
{
    match op {
        Op::Fetch => "fetch",
        Op::Pull => "pull",
        Op::Push => "push",
    }
}

/// What came of an operation on one of several repositories.
pub struct BulkResult {
    pub name: String,
    pub path: String,
    /// Why it failed, if it did.
    pub error: Option<String>,
    pub status: RepoInfo,
}

pub struct BulkResultView {
    pub name: Seq<char>,
    pub path: Seq<char>,
    pub error: Option<Seq<char>>,
    pub status: RepoInfo,
}

impl View for BulkResult {
    type V = BulkResultView;

    open spec fn view(&self) -> BulkResultView {
        BulkResultView {
            name: self.name@,
            path: self.path@,
            error: opt_view(self.error),
            status: self.status,
        }
    }
}

pub open spec fn results_view(v: Seq<BulkResult>) -> Seq<BulkResultView> {
    v.map_values(|r: BulkResult| r@)
}

/// What a command shows, as text or as JSON.
pub enum Data {
    Repos(Vec<RepoInfo>),
    Repo(RepoInfo),
    Commits(Vec<CommitInfo>),
    Commit { commit: String, files: Vec<CommitFileChange>, diff: String },
    Diff(String),
    Changes(Vec<FileChange>),
    Committed { oid: String, message: String },
    Squashed { oid: String, count: usize },
    Branches(Vec<BranchInfo>),
    Stashes(Vec<StashEntry>),
    Remotes(Vec<RemoteInfo>),
    Profile(GitProfile),
    Readme(Option<String>),
    Page(String),
    Config(Vec<String>),
    Roots(Vec<String>),
    /// What came of an operation; only text.
    Outcome { op: Op, name: String, error: Option<String> },
    /// What was done.
    Did { what: String, rest: String },
    /// A remark.
    Remark(String),
    /// What came of a push; only JSON.
    Pushed { repo: String, error: Option<String> },
    /// What came of an operation on several repositories; only JSON.
    Bulk(Vec<BulkResult>),
}

pub enum DataView {
    Repos(Seq<RepoInfo>),
    Repo(RepoInfo),
    Commits(Seq<CommitInfo>),
    Commit { commit: Seq<char>, files: Seq<CommitFileChange>, diff: Seq<char> },
    Diff(Seq<char>),
    Changes(Seq<FileChange>),
    Committed { oid: Seq<char>, message: Seq<char> },
    Squashed { oid: Seq<char>, count: usize },
    Branches(Seq<BranchInfo>),
    Stashes(Seq<StashEntry>),
    Remotes(Seq<RemoteInfo>),
    Profile(GitProfile),
    Readme(Option<Seq<char>>),
    Page(Seq<char>),
    Config(Seq<Seq<char>>),
    Roots(Seq<Seq<char>>),
    Outcome { op: Op, name: Seq<char>, error: Option<Seq<char>> },
    Did { what: Seq<char>, rest: Seq<char> },
    Remark(Seq<char>),
    Pushed { repo: Seq<char>, error: Option<Seq<char>> },
    Bulk(Seq<BulkResultView>),
}

impl View for Data {
    type V = DataView;

    open spec fn view(&self) -> DataView {
        match self {
            Data::Repos(v) => DataView::Repos(v@),
            Data::Repo(r) => DataView::Repo(*r),
            Data::Commits(v) => DataView::Commits(v@),
            Data::Commit { commit, files, diff } => DataView::Commit {
                commit: commit@,
                files: files@,
                diff: diff@,
            },
            Data::Diff(s) => DataView::Diff(s@),
            Data::Changes(v) => DataView::Changes(v@),
            Data::Committed { oid, message } => DataView::Committed {
                oid: oid@,
                message: message@,
            },
            Data::Squashed { oid, count } => DataView::Squashed { oid: oid@, count: *count },
            Data::Branches(v) => DataView::Branches(v@),
            Data::Stashes(v) => DataView::Stashes(v@),
            Data::Remotes(v) => DataView::Remotes(v@),
            Data::Profile(p) => DataView::Profile(*p),
            Data::Readme(c) => DataView::Readme(opt_view(*c)),
            Data::Page(s) => DataView::Page(s@),
            Data::Config(v) => DataView::Config(texts(v@)),
            Data::Roots(v) => DataView::Roots(texts(v@)),
            Data::Outcome { op, name, error } => DataView::Outcome {
                op: *op,
                name: name@,
                error: opt_view(*error),
            },
            Data::Did { what, rest } => DataView::Did { what: what@, rest: rest@ },
            Data::Remark(s) => DataView::Remark(s@),
            Data::Pushed { repo, error } => DataView::Pushed {
                repo: repo@,
                error: opt_view(*error),
            },
            Data::Bulk(v) => DataView::Bulk(results_view(v@)),
        }
    }
}

/// A remark on the error stream.
pub enum Notice {
    /// A scan of the given roots starts.
    Scanning(Vec<String>),
    /// No known repository was asked for; the search, if there was one.
    NothingCached(Option<String>),
    /// An operation on a repository starts.
    Working(Op, String),
}

pub enum NoticeView {
    Scanning(Seq<Seq<char>>),
    NothingCached(Option<Seq<char>>),
    Working(Op, Seq<char>),
}

impl View for Notice {
    type V = NoticeView;

    open spec fn view(&self) -> NoticeView {
        match self {
            Notice::Scanning(v) => NoticeView::Scanning(texts(v@)),
            Notice::NothingCached(s) => NoticeView::NothingCached(opt_view(*s)),
            Notice::Working(op, name) => NoticeView::Working(*op, name@),
        }
    }
}

/// What a command does on the way: what it says, and what it keeps.
pub enum Say {
    Notice(Notice),
    Text(Data),
    Json(Data),
    SaveCache(Vec<RepoInfo>),
    SaveConfig(Vec<String>),
}

pub enum SayView {
    Notice(NoticeView),
    Text(DataView),
    Json(DataView),
    SaveCache(Seq<RepoInfo>),
    SaveConfig(Seq<Seq<char>>),
}

impl View for Say {
    type V = SayView;

    open spec fn view(&self) -> SayView {
        match self {
            Say::Notice(n) => SayView::Notice(n@),
            Say::Text(d) => SayView::Text(d@),
            Say::Json(d) => SayView::Json(d@),
            Say::SaveCache(v) => SayView::SaveCache(v@),
            Say::SaveConfig(v) => SayView::SaveConfig(texts(v@)),
        }
    }
}

pub open spec fn says_view(v: Seq<Say>) -> Seq<SayView> {
    v.map_values(|s: Say| s@)
}

// ── How it reads ─────────────────────────

pub open spec fn notice_line(n: NoticeView) -> Seq<SpanView> {
    match n {
        NoticeView::Scanning(roots) => plain_line("Scanning "@ + joined(roots, ", "@) + "..."@),
        NoticeView::NothingCached(search) => plain_line(
            "No cached repos"@ + (match search {
                Some(q) => " matching '"@ + q + "'"@,
                None => ""@,
            }) + ". Run `gitatlas scan` first."@,
        ),
        NoticeView::Working(op, name) => seq![
            tinted(op_text(op), Color::Cyan),
            bare(" "@ + name),
        ],
    }
}

/// How a notice reads.
pub fn notice_text(n: &Notice) -> (r: Vec<Span>)
    ensures
        line_view(r@) == notice_line(n@),
{
    match n {
        Notice::Scanning(roots) => {
            let list = text::join(roots, ", ");
            let s = text::copy("Scanning ").concat(list.as_str()).concat("...");
            one(Span::bare(s.as_str()))
        },
        Notice::NothingCached(search) => {
            let which = match search {
                Some(q) => text::copy(" matching '").concat(q.as_str()).concat("'"),
                None => text::copy(""),
            };
            let s = text::copy("No cached repos").concat(which.as_str()).concat(
                ". Run `gitatlas scan` first.",
            );
            one(Span::bare(s.as_str()))
        },
        Notice::Working(op, name) => {
            let s = text::copy(" ").concat(name.as_str());
            let line = vec![Span::tinted(op_name(*op), Color::Cyan), Span::bare(s.as_str())];
            assert(line_view(line@) =~= notice_line(n@));
            line
        },
    }
}

pub open spec fn green_bold() -> Style {
    Style::plain().fg(Color::Green).bold()
}

pub open spec fn outcome_line(op: Op, name: Seq<char>, error: Option<Seq<char>>) -> Seq<SpanView> {
    match error {
        None => seq![
            bare("  "@),
            tinted("✓"@, Color::Green),
            bare(" "@ + op_text(op) + " "@ + name),
        ],
        Some(e) => seq![
            bare("  "@),
            tinted("✗"@, Color::Red),
            bare(" "@ + op_text(op) + " "@ + name + ": "@ + e),
        ],
    }
}

pub open spec fn commit_lines(
    commit: Seq<char>,
    files: Seq<CommitFileChange>,
    diff: Seq<char>,
) -> Seq<Seq<SpanView>> {
    seq![
        seq![tinted("commit"@, Color::Yellow), bare(" "@ + commit)],
        Seq::<SpanView>::empty(),
    ] + listed(files.map_values(|f: CommitFileChange| file_line(f)), "(no file changes)"@) + seq![
        Seq::<SpanView>::empty(),
    ] + lines_of(diff).map_values(|l: Seq<char>| diff_line(l))
}

pub open spec fn config_text(roots: Seq<Seq<char>>) -> Seq<char> {
    "scan roots:\n  "@ + if roots.len() == 0 {
        "(none; defaulting to ~/dev)"@
    } else {
        joined(roots, "\n  "@)
    }
}

/// How data reads as text.
pub open spec fn data_shown(d: DataView) -> Seq<PrintedView> {
    match d {
        DataView::Repos(v) => repo_table(v),
        DataView::Repo(r) => as_lines(repo_status(r)),
        DataView::Commits(v) => as_lines(
            listed(v.map_values(|c: CommitInfo| commit_line(c)), "(no commits)"@),
        ),
        DataView::Commit { commit, files, diff } => as_lines(commit_lines(commit, files, diff)),
        DataView::Diff(s) => as_lines(
            if s.len() == 0 {
                seq![plain_line("(no changes)"@)]
            } else {
                lines_of(s).map_values(|l: Seq<char>| diff_line(l))
            },
        ),
        DataView::Changes(v) => as_lines(changes_shown(v)),
        DataView::Committed { oid, message } => as_lines(
            seq![
                seq![shown("commit"@, green_bold()), bare(" "@ + short_id(oid))],
                plain_line("  "@ + message),
            ],
        ),
        DataView::Squashed { oid, count } => as_lines(
            seq![
                seq![
                    shown("squashed"@, green_bold()),
                    bare(" "@ + decimal_of(count as nat) + " commits into "@ + short_id(oid)),
                ],
            ],
        ),
        DataView::Branches(v) => as_lines(
            listed(v.map_values(|b: BranchInfo| branch_line(b)), "(no branches)"@),
        ),
        DataView::Stashes(v) => as_lines(
            listed(v.map_values(|s: StashEntry| stash_line(s)), "(no stashes)"@),
        ),
        DataView::Remotes(v) => remote_table(v),
        DataView::Profile(p) => as_lines(
            seq![
                plain_line("  user.name:  "@ + p.name@),
                plain_line("  user.email: "@ + p.email@),
            ],
        ),
        DataView::Readme(c) => match c {
            Some(s) => seq![PrintedView::Raw(s)],
            None => as_lines(seq![plain_line("(no README found)"@)]),
        },
        DataView::Page(s) => as_lines(seq![plain_line(s)]),
        DataView::Config(roots) => as_lines(seq![plain_line(config_text(roots))]),
        DataView::Roots(roots) => as_lines(
            listed(
                roots.map_values(|r: Seq<char>| plain_line(r)),
                "(no scan roots configured)"@,
            ),
        ),
        DataView::Outcome { op, name, error } => as_lines(seq![outcome_line(op, name, error)]),
        DataView::Did { what, rest } => as_lines(
            seq![seq![tinted(what, Color::Green), bare(rest)]],
        ),
        DataView::Remark(s) => as_lines(seq![plain_line(s)]),
        DataView::Pushed { repo, error } => seq![],
        DataView::Bulk(v) => seq![],
    }
}

fn one_line(l: Vec<Span>) -> (r: Vec<Printed>)
    ensures
        printed_view(r@) == as_lines(seq![line_view(l@)]),
{
    let mut v: Vec<Vec<Span>> = Vec::new();
    v.push(l);
    assert(lines_view(v@) =~= seq![line_view(l@)]);
    lines_printed(v)
}

fn two_lines(a: Vec<Span>, b: Vec<Span>) -> (r: Vec<Printed>)
    ensures
        printed_view(r@) == as_lines(seq![line_view(a@), line_view(b@)]),
{
    let mut v: Vec<Vec<Span>> = Vec::new();
    v.push(a);
    v.push(b);
    assert(lines_view(v@) =~= seq![line_view(a@), line_view(b@)]);
    lines_printed(v)
}

fn remark(s: &str) -> (r: Vec<Printed>)
    ensures
        printed_view(r@) == as_lines(seq![plain_line(s@)]),
{
    one_line(one(Span::bare(s)))
}

fn nothing() -> (r: Vec<Printed>)
    ensures
        printed_view(r@) == Seq::<PrintedView>::empty(),
{
    let v: Vec<Printed> = Vec::new();
    assert(printed_view(v@) =~= seq![]);
    v
}

fn outcome_text(op: Op, name: &str, error: &Option<String>) -> (r: Vec<Span>)
    ensures
        line_view(r@) == outcome_line(op, name@, opt_view(*error)),
{
    let done = text::copy(" ").concat(op_name(op)).concat(" ").concat(name);
    match error {
        None => {
            let line = vec![
                Span::bare("  "),
                Span::tinted("✓", Color::Green),
                Span::bare(done.as_str()),
            ];
            assert(line_view(line@) =~= outcome_line(op, name@, opt_view(*error)));
            line
        },
        Some(e) => {
            let failed = done.concat(": ").concat(e.as_str());
            let line = vec![
                Span::bare("  "),
                Span::tinted("✗", Color::Red),
                Span::bare(failed.as_str()),
            ];
            assert(line_view(line@) =~= outcome_line(op, name@, opt_view(*error)));
            line
        },
    }
}

fn commit_text(commit: &str, files: &Vec<CommitFileChange>, diff: &str) -> (r: Vec<Vec<Span>>)
    ensures
        lines_view(r@) == commit_lines(commit@, files@, diff@),
{
    let id = text::copy(" ").concat(commit);
    let title = vec![Span::tinted("commit", Color::Yellow), Span::bare(id.as_str())];
    assert(line_view(title@) =~= seq![tinted("commit"@, Color::Yellow), bare(" "@ + commit@)]);
    let empty: Vec<Span> = Vec::new();
    assert(line_view(empty@) =~= seq![]);
    let mut head: Vec<Vec<Span>> = Vec::new();
    head.push(title);
    head.push(empty);
    assert(lines_view(head@) =~= seq![
        seq![tinted("commit"@, Color::Yellow), bare(" "@ + commit@)],
        Seq::<SpanView>::empty(),
    ]);
    let gap: Vec<Span> = Vec::new();
    assert(line_view(gap@) =~= seq![]);
    let mut between: Vec<Vec<Span>> = Vec::new();
    between.push(gap);
    assert(lines_view(between@) =~= seq![Seq::<SpanView>::empty()]);
    let listed_files = output::print_commit_files(files);
    let patch = output::print_diff(diff);
    let a = followed_by(head, listed_files);
    let b = followed_by(a, between);
    followed_by(b, patch)
}

fn roots_text(roots: &Vec<String>) -> (r: Vec<Vec<Span>>)
    ensures
        lines_view(r@) == listed(
            texts(roots@).map_values(|r: Seq<char>| plain_line(r)),
            "(no scan roots configured)"@,
        ),
{
    if roots.len() == 0 {
        return note("(no scan roots configured)");
    }
    let ghost shows = |r: String| plain_line(r@);
    let draw = |r: &String| -> (l: Vec<Span>)
        ensures
            line_view(l@) == plain_line(r@),
        { one(Span::bare(r.as_str())) };
    let lines = crate::style::each_line(roots, draw, Ghost(shows));
    assert(roots@.map_values(shows) =~= texts(roots@).map_values(
        |r: Seq<char>| plain_line(r),
    ));
    lines
}

/// How data reads as text.
pub fn data_text(d: &Data) -> (r: Vec<Printed>)
    ensures
        printed_view(r@) == data_shown(d@),
{
    match d {
        Data::Repos(v) => output::print_repo_table(v),
        Data::Repo(r) => lines_printed(output::print_repo_status(r)),
        Data::Commits(v) => lines_printed(output::print_commits(v)),
        Data::Commit { commit, files, diff } => lines_printed(
            commit_text(commit.as_str(), files, diff.as_str()),
        ),
        Data::Diff(s) => if text::length(s.as_str()) == 0 {
            remark("(no changes)")
        } else {
            lines_printed(output::print_diff(s.as_str()))
        },
        Data::Changes(v) => lines_printed(output::print_file_changes(v)),
        Data::Committed { oid, message } => {
            let short = text::cut_to(oid.as_str(), 7);
            let id = text::copy(" ").concat(short.as_str());
            let title = vec![
                Span::new("commit", Style::plain().fg(Color::Green).bold()),
                Span::bare(id.as_str()),
            ];
            assert(line_view(title@) =~= seq![
                shown("commit"@, green_bold()),
                bare(" "@ + short_id(oid@)),
            ]);
            let body = text::copy("  ").concat(message.as_str());
            two_lines(title, one(Span::bare(body.as_str())))
        },
        Data::Squashed { oid, count } => {
            let short = text::cut_to(oid.as_str(), 7);
            let n = text::decimal(*count as u64);
            let rest = text::copy(" ").concat(n.as_str()).concat(" commits into ").concat(
                short.as_str(),
            );
            let line = vec![
                Span::new("squashed", Style::plain().fg(Color::Green).bold()),
                Span::bare(rest.as_str()),
            ];
            assert(line_view(line@) =~= seq![
                shown("squashed"@, green_bold()),
                bare(" "@ + decimal_of(*count as nat) + " commits into "@ + short_id(oid@)),
            ]);
            one_line(line)
        },
        Data::Branches(v) => lines_printed(output::print_branches(v)),
        Data::Stashes(v) => lines_printed(output::print_stashes(v)),
        Data::Remotes(v) => output::print_remotes(v),
        Data::Profile(p) => {
            let name = text::copy("  user.name:  ").concat(p.name.as_str());
            let email = text::copy("  user.email: ").concat(p.email.as_str());
            two_lines(one(Span::bare(name.as_str())), one(Span::bare(email.as_str())))
        },
        Data::Readme(c) => match c {
            Some(s) => {
                let mut v: Vec<Printed> = Vec::new();
                v.push(Printed::Raw(s.clone()));
                assert(printed_view(v@) =~= seq![PrintedView::Raw(s@)]);
                v
            },
            None => remark("(no README found)"),
        },
        Data::Page(s) => remark(s.as_str()),
        Data::Config(roots) => {
            let list = if roots.len() == 0 {
                text::copy("(none; defaulting to ~/dev)")
            } else {
                text::join(roots, "\n  ")
            };
            let s = text::copy("scan roots:\n  ").concat(list.as_str());
            remark(s.as_str())
        },
        Data::Roots(roots) => lines_printed(roots_text(roots)),
        Data::Outcome { op, name, error } => one_line(outcome_text(*op, name.as_str(), error)),
        Data::Did { what, rest } => {
            let line = vec![
                Span::tinted(what.as_str(), Color::Green),
                Span::bare(rest.as_str()),
            ];
            assert(line_view(line@) =~= seq![tinted(what@, Color::Green), bare(rest@)]);
            one_line(line)
        },
        Data::Remark(s) => remark(s.as_str()),
        Data::Pushed { repo: _, error: _ } => nothing(),
        Data::Bulk(_) => nothing(),
    }
}

} // verus!
