//! What commands print.
use vstd::prelude::*;
use vstd::string::*;

use crate::models::{BranchInfo, CommitFileChange, CommitInfo, FileChange, RefKind,
    RefLabel, RemoteInfo, RepoHealth, RepoInfo, StashEntry};
use crate::models::{health_name, health_text, short_code};
use crate::style::{bare, each_line, followed_by, line_view, lines_view, note, one, shown,
    tinted};
use crate::style::{Color, Span, SpanView, Style};
use crate::text;
use crate::text::{decimal_of, first_line_of, lines_of, texts};

verus! {

/// A piece of output.
pub enum Printed {
    Line(Vec<Span>),
    Table { header: Vec<Span>, rows: Vec<Vec<Span>> },
    /// A text as it is, with no line end after it.
    Raw(String),
}

pub enum PrintedView {
    Line(Seq<SpanView>),
    Table { header: Seq<SpanView>, rows: Seq<Seq<SpanView>> },
    Raw(Seq<char>),
}

impl View for Printed {
    type V = PrintedView;

    open spec fn view(&self) -> PrintedView {
        match self {
            Printed::Line(l) => PrintedView::Line(line_view(l@)),
            Printed::Table { header, rows } => PrintedView::Table {
                header: line_view(header@),
                rows: lines_view(rows@),
            },
            Printed::Raw(s) => PrintedView::Raw(s@),
        }
    }
}

pub open spec fn printed_view(v: Seq<Printed>) -> Seq<PrintedView> {
    v.map_values(|p: Printed| p@)
}

/// Lines as pieces of output.
pub open spec fn as_lines(v: Seq<Seq<SpanView>>) -> Seq<PrintedView> {
    v.map_values(|l: Seq<SpanView>| PrintedView::Line(l))
}

/// Lines as pieces of output.
pub fn lines_printed(v: Vec<Vec<Span>>) -> (r: Vec<Printed>)
    ensures
        printed_view(r@) == as_lines(lines_view(v@)),
{
    let ghost all = v@;
    let ghost want = as_lines(lines_view(all));
    let mut out: Vec<Printed> = Vec::new();
    assert(printed_view(out@) =~= want.take(0));
    for l in it: v.into_iter()
        invariant
            it.seq() == all,
            want == as_lines(lines_view(all)),
            printed_view(out@) == want.take(it.index() as int),
    {
        let ghost k = it.index() as int;
        let ghost before = printed_view(out@);
        assert(lines_view(all)[k] == line_view(l@));
        out.push(Printed::Line(l));
        assert(printed_view(out@) =~= before.push(PrintedView::Line(line_view(l@))));
        assert(want.take(k + 1) =~= want.take(k).push(want[k]));
    }
    assert(want.take(all.len() as int) =~= want);
    out
}

/// A line of plain text.
pub open spec fn plain_line(s: Seq<char>) -> Seq<SpanView> {
    seq![bare(s)]
}

// ── Repositories ─────────────────────────

pub open spec fn health_tint(h: RepoHealth) -> Color {
    match h {
        RepoHealth::Clean => Color::Green,
        RepoHealth::Dirty => Color::Yellow,
        RepoHealth::Diverged => Color::Red,
        RepoHealth::Error => Color::Red,
    }
}

fn tint_of_health(h: RepoHealth) -> (r: Color)
    ensures
        r == health_tint(h),
{
    match h {
        RepoHealth::Clean => Color::Green,
        RepoHealth::Dirty => Color::Yellow,
        RepoHealth::Diverged => Color::Red,
        RepoHealth::Error => Color::Red,
    }
}

/// A health as a cell of a table.
pub fn health_cell(h: RepoHealth) -> (r: Span)
    ensures
        r@ == shown(health_text(h), Style::plain().fg(health_tint(h)).bold()),
{
    Span::new(health_name(h), Style::plain().fg(tint_of_health(h)).bold())
}

/// A count, tinted where there is something to count.
pub open spec fn count_shown(n: u32, color: Color) -> SpanView {
    if n > 0 {
        tinted(decimal_of(n as nat), color)
    } else {
        bare(decimal_of(n as nat))
    }
}

fn count_cell(n: u32, color: Color) -> (r: Span)
    ensures
        r@ == count_shown(n, color),
{
    let s = text::decimal(n as u64);
    if n > 0 {
        Span::tinted(s.as_str(), color)
    } else {
        Span::bare(s.as_str())
    }
}

fn heading(s: &str) -> (r: Span)
    ensures
        r@ == shown(s@, Style::plain().bold()),
{
    Span::new(s, Style::plain().bold())
}

pub open spec fn heading_shown(s: Seq<char>) -> SpanView {
    shown(s, Style::plain().bold())
}

pub open spec fn repo_header() -> Seq<SpanView> {
    seq![
        heading_shown("NAME"@),
        heading_shown("BRANCH"@),
        heading_shown("AHEAD"@),
        heading_shown("BEHIND"@),
        heading_shown("DIRTY"@),
        heading_shown("STASH"@),
        heading_shown("HEALTH"@),
        heading_shown("PATH"@),
    ]
}

pub open spec fn repo_row(r: RepoInfo) -> Seq<SpanView> {
    seq![
        bare(r.name@),
        bare(r.branch@),
        count_shown(r.ahead, Color::Yellow),
        count_shown(r.behind, Color::Red),
        count_shown(r.dirty_files, Color::Yellow),
        bare(decimal_of(r.stash_count as nat)),
        shown(health_text(r.health), Style::plain().fg(health_tint(r.health)).bold()),
        bare(r.path@),
    ]
}

/// How many repositories have the health.
pub open spec fn with_health(repos: Seq<RepoInfo>, h: RepoHealth) -> nat
    decreases repos.len(),
{
    if repos.len() == 0 {
        0
    } else {
        with_health(repos.drop_last(), h) + if repos.last().health == h {
            1nat
        } else {
            0
        }
    }
}

pub open spec fn health_summary(repos: Seq<RepoInfo>) -> Seq<SpanView> {
    seq![
        bare(decimal_of(repos.len()) + " total — "@),
        tinted(decimal_of(with_health(repos, RepoHealth::Clean)), Color::Green),
        bare(" clean, "@),
        tinted(decimal_of(with_health(repos, RepoHealth::Dirty)), Color::Yellow),
        bare(" dirty, "@),
        tinted(decimal_of(with_health(repos, RepoHealth::Diverged)), Color::Red),
        bare(" diverged, "@),
        tinted(decimal_of(with_health(repos, RepoHealth::Error)), Color::Red),
        bare(" error"@),
    ]
}

/// A table of repositories and how many there are of each health.
pub open spec fn repo_table(repos: Seq<RepoInfo>) -> Seq<PrintedView> {
    if repos.len() == 0 {
        seq![PrintedView::Line(plain_line("(no repositories)"@))]
    } else {
        seq![
            PrintedView::Table {
                header: repo_header(),
                rows: repos.map_values(|r: RepoInfo| repo_row(r)),
            },
            PrintedView::Line(seq![]),
            PrintedView::Line(health_summary(repos)),
        ]
    }
}

fn draw_repo_header() -> (r: Vec<Span>)
    ensures
        line_view(r@) == repo_header(),
{
    let r = vec![
        heading("NAME"),
        heading("BRANCH"),
        heading("AHEAD"),
        heading("BEHIND"),
        heading("DIRTY"),
        heading("STASH"),
        heading("HEALTH"),
        heading("PATH"),
    ];
    assert(line_view(r@) =~= repo_header());
    r
}

fn draw_repo_row(r: &RepoInfo) -> (row: Vec<Span>)
    ensures
        line_view(row@) == repo_row(*r),
{
    let stashes = text::decimal(r.stash_count as u64);
    let row = vec![
        Span::bare(r.name.as_str()),
        Span::bare(r.branch.as_str()),
        count_cell(r.ahead, Color::Yellow),
        count_cell(r.behind, Color::Red),
        count_cell(r.dirty_files, Color::Yellow),
        Span::bare(stashes.as_str()),
        health_cell(r.health),
        Span::bare(r.path.as_str()),
    ];
    assert(line_view(row@) =~= repo_row(*r));
    row
}

/// How many repositories there are of each health: clean, dirty, diverged and
/// in error.
pub fn health_counts(repos: &Vec<RepoInfo>) -> (r: (usize, usize, usize, usize))
    ensures
        r.0 == with_health(repos@, RepoHealth::Clean),
        r.1 == with_health(repos@, RepoHealth::Dirty),
        r.2 == with_health(repos@, RepoHealth::Diverged),
        r.3 == with_health(repos@, RepoHealth::Error),
        r.0 + r.1 + r.2 + r.3 == repos@.len(),
{
    let mut clean: usize = 0;
    let mut dirty: usize = 0;
    let mut diverged: usize = 0;
    let mut error: usize = 0;
    let mut i: usize = 0;
    assert(repos@.take(0) =~= seq![]);
    while i < repos.len()
        invariant
            i <= repos@.len(),
            clean == with_health(repos@.take(i as int), RepoHealth::Clean),
            dirty == with_health(repos@.take(i as int), RepoHealth::Dirty),
            diverged == with_health(repos@.take(i as int), RepoHealth::Diverged),
            error == with_health(repos@.take(i as int), RepoHealth::Error),
            clean + dirty + diverged + error == i,
        decreases repos@.len() - i,
    {
        assert(repos@.take(i + 1).drop_last() =~= repos@.take(i as int));
        match repos[i].health {
            RepoHealth::Clean => {
                clean = clean + 1;
            },
            RepoHealth::Dirty => {
                dirty = dirty + 1;
            },
            RepoHealth::Diverged => {
                diverged = diverged + 1;
            },
            RepoHealth::Error => {
                error = error + 1;
            },
        }
        i = i + 1;
    }
    assert(repos@.take(i as int) =~= repos@);
    (clean, dirty, diverged, error)
}

/// Every repository has one health: the counts of all healths add up.
pub proof fn health_counts_add_up(repos: Seq<RepoInfo>)
    ensures
        with_health(repos, RepoHealth::Clean) + with_health(repos, RepoHealth::Dirty) + with_health(
            repos,
            RepoHealth::Diverged,
        ) + with_health(repos, RepoHealth::Error) == repos.len(),
    decreases repos.len(),
{
    if repos.len() > 0 {
        health_counts_add_up(repos.drop_last());
    }
}

fn draw_health_summary(repos: &Vec<RepoInfo>) -> (r: Vec<Span>)
    ensures
        line_view(r@) == health_summary(repos@),
{
    let (clean, dirty, diverged, error) = health_counts(repos);
    let total = text::decimal(repos.len() as u64).concat(" total — ");
    let clean = text::decimal(clean as u64);
    let dirty = text::decimal(dirty as u64);
    let diverged = text::decimal(diverged as u64);
    let error = text::decimal(error as u64);
    let r = vec![
        Span::bare(total.as_str()),
        Span::tinted(clean.as_str(), Color::Green),
        Span::bare(" clean, "),
        Span::tinted(dirty.as_str(), Color::Yellow),
        Span::bare(" dirty, "),
        Span::tinted(diverged.as_str(), Color::Red),
        Span::bare(" diverged, "),
        Span::tinted(error.as_str(), Color::Red),
        Span::bare(" error"),
    ];
    assert(line_view(r@) =~= health_summary(repos@));
    r
}

/// A table of repositories.
pub fn print_repo_table(repos: &Vec<RepoInfo>) -> (r: Vec<Printed>)
    ensures
        printed_view(r@) == repo_table(repos@),
{
    let mut out: Vec<Printed> = Vec::new();
    if repos.len() == 0 {
        out.push(Printed::Line(one(Span::bare("(no repositories)"))));
        assert(printed_view(out@) =~= repo_table(repos@));
        return out;
    }
    let header = draw_repo_header();
    let ghost shows = |r: RepoInfo| repo_row(r);
    let draw = |r: &RepoInfo| -> (row: Vec<Span>)
            ensures
                line_view(row@) == repo_row(*r),
            { draw_repo_row(r) };
    let rows = each_line(repos, draw, Ghost(shows));
    let summary = draw_health_summary(repos);
    let gap: Vec<Span> = Vec::new();
    assert(line_view(gap@) =~= seq![]);
    out.push(Printed::Table { header, rows });
    out.push(Printed::Line(gap));
    out.push(Printed::Line(summary));
    assert(printed_view(out@) =~= repo_table(repos@));
    out
}

/// The state of one repository.
pub open spec fn repo_status(r: RepoInfo) -> Seq<Seq<SpanView>> {
    seq![
        seq![shown(r.name@, Style::plain().fg(Color::Cyan).bold())],
        plain_line("  path:        "@ + r.path@),
        plain_line("  branch:      "@ + r.branch@),
        plain_line(
            "  ahead:       "@ + decimal_of(r.ahead as nat) + "   behind: "@ + decimal_of(
                r.behind as nat,
            ),
        ),
        plain_line("  dirty files: "@ + decimal_of(r.dirty_files as nat)),
        plain_line("  stashes:     "@ + decimal_of(r.stash_count as nat)),
        seq![bare("  health:      "@), tinted(health_text(r.health), health_tint(r.health))],
    ] + (match r.remote_url {
        Some(url) => seq![plain_line("  origin:      "@ + url@)],
        None => seq![],
    }) + seq![plain_line("  checked:     "@ + r.last_checked@)]
}

fn labelled(label: &str, value: &str) -> (r: Vec<Span>)
    ensures
        line_view(r@) == plain_line(label@ + value@),
{
    let s = text::copy(label).concat(value);
    one(Span::bare(s.as_str()))
}

/// The state of one repository.
pub fn print_repo_status(repo: &RepoInfo) -> (r: Vec<Vec<Span>>)
    ensures
        lines_view(r@) == repo_status(*repo),
{
    let ahead = text::decimal(repo.ahead as u64);
    let behind = text::decimal(repo.behind as u64);
    let dirty = text::decimal(repo.dirty_files as u64);
    let stashes = text::decimal(repo.stash_count as u64);
    let both = ahead.concat("   behind: ").concat(behind.as_str());
    proof {
        assert("  ahead:       "@ + (decimal_of(repo.ahead as nat) + "   behind: "@ + decimal_of(
            repo.behind as nat,
        )) =~= "  ahead:       "@ + decimal_of(repo.ahead as nat) + "   behind: "@ + decimal_of(
            repo.behind as nat,
        ));
    }
    let health = vec![
        Span::bare("  health:      "),
        Span::tinted(health_name(repo.health), tint_of_health(repo.health)),
    ];
    assert(line_view(health@) =~= seq![
        bare("  health:      "@),
        tinted(health_text(repo.health), health_tint(repo.health)),
    ]);
    let mut out: Vec<Vec<Span>> = vec![
        one(Span::new(repo.name.as_str(), Style::plain().fg(Color::Cyan).bold())),
        labelled("  path:        ", repo.path.as_str()),
        labelled("  branch:      ", repo.branch.as_str()),
        labelled("  ahead:       ", both.as_str()),
        labelled("  dirty files: ", dirty.as_str()),
        labelled("  stashes:     ", stashes.as_str()),
        health,
    ];
    if let Some(url) = &repo.remote_url {
        out.push(labelled("  origin:      ", url.as_str()));
    }
    out.push(labelled("  checked:     ", repo.last_checked.as_str()));
    assert(lines_view(out@) =~= repo_status(*repo));
    out
}

// ── Commits ──────────────────────────────

pub open spec fn ref_shown(l: RefLabel) -> SpanView {
    match l.kind {
        RefKind::Head => shown(
            "HEAD -> "@ + l.name@,
            Style::plain().fg(Color::Cyan).bold(),
        ),
        RefKind::Local => tinted(l.name@, Color::Green),
        RefKind::Remote => tinted(l.name@, Color::Red),
        RefKind::Tag => tinted("tag: "@ + l.name@, Color::Yellow),
    }
}

/// The labels of a commit, with commas between them.
pub open spec fn refs_listed(refs: Seq<RefLabel>) -> Seq<SpanView>
    decreases refs.len(),
{
    if refs.len() == 0 {
        seq![]
    } else if refs.len() == 1 {
        seq![ref_shown(refs[0])]
    } else {
        refs_listed(refs.drop_last()) + seq![bare(", "@), ref_shown(refs.last())]
    }
}

/// The labels of a commit in brackets, if there are any.
pub open spec fn refs_shown(refs: Seq<RefLabel>) -> Seq<SpanView> {
    if refs.len() == 0 {
        seq![]
    } else {
        seq![bare(" ("@)] + refs_listed(refs) + seq![bare(")"@)]
    }
}

pub open spec fn commit_line(c: CommitInfo) -> Seq<SpanView> {
    seq![tinted(c.short_oid@, Color::Yellow)] + refs_shown(c.refs@) + seq![
        bare(" "@),
        shown("<"@ + c.author@ + ">"@, Style::plain().dim()),
        bare(" "@ + first_line_of(c.message@)),
    ]
}

fn draw_ref(l: &RefLabel) -> (r: Span)
    ensures
        r@ == ref_shown(*l),
{
    match l.kind {
        RefKind::Head => {
            let s = text::copy("HEAD -> ").concat(l.name.as_str());
            Span::new(s.as_str(), Style::plain().fg(Color::Cyan).bold())
        },
        RefKind::Local => Span::tinted(l.name.as_str(), Color::Green),
        RefKind::Remote => Span::tinted(l.name.as_str(), Color::Red),
        RefKind::Tag => {
            let s = text::copy("tag: ").concat(l.name.as_str());
            Span::tinted(s.as_str(), Color::Yellow)
        },
    }
}

fn draw_commit(c: &CommitInfo) -> (r: Vec<Span>)
    ensures
        line_view(r@) == commit_line(*c),
{
    let mut out = one(Span::tinted(c.short_oid.as_str(), Color::Yellow));
    let ghost start = line_view(out@);
    if c.refs.len() > 0 {
        out.push(Span::bare(" ("));
        out.push(draw_ref(&c.refs[0]));
        let mut i: usize = 1;
        assert(c.refs@.take(1)[0] == c.refs@[0]);
        assert(line_view(out@) =~= start + seq![bare(" ("@)] + refs_listed(c.refs@.take(1)));
        while i < c.refs.len()
            invariant
                1 <= i <= c.refs@.len(),
                line_view(out@) == start + seq![bare(" ("@)] + refs_listed(
                    c.refs@.take(i as int),
                ),
            decreases c.refs@.len() - i,
        {
            let ghost before = line_view(out@);
            assert(c.refs@.take(i + 1).drop_last() =~= c.refs@.take(i as int));
            out.push(Span::bare(", "));
            out.push(draw_ref(&c.refs[i]));
            assert(line_view(out@) =~= before + seq![bare(", "@), ref_shown(c.refs@[i as int])]);
            assert(line_view(out@) =~= start + seq![bare(" ("@)] + refs_listed(
                c.refs@.take(i + 1),
            ));
            i = i + 1;
        }
        assert(c.refs@.take(i as int) =~= c.refs@);
        let ghost before = line_view(out@);
        out.push(Span::bare(")"));
        assert(line_view(out@) =~= before.push(bare(")"@)));
    }
    assert(line_view(out@) =~= start + refs_shown(c.refs@));
    let author = text::copy("<").concat(c.author.as_str()).concat(">");
    let first = text::first_line(c.message.as_str());
    let message = text::copy(" ").concat(first.as_str());
    let ghost before = line_view(out@);
    out.push(Span::bare(" "));
    out.push(Span::new(author.as_str(), Style::plain().dim()));
    out.push(Span::bare(message.as_str()));
    assert(line_view(out@) =~= commit_line(*c));
    out
}

/// A note where there is nothing to list, and otherwise the lines.
pub open spec fn listed(lines: Seq<Seq<SpanView>>, none: Seq<char>) -> Seq<Seq<SpanView>> {
    if lines.len() == 0 {
        seq![plain_line(none)]
    } else {
        lines
    }
}

/// Commits, one to a line.
pub fn print_commits(commits: &Vec<CommitInfo>) -> (r: Vec<Vec<Span>>)
    ensures
        lines_view(r@) == listed(
            commits@.map_values(|c: CommitInfo| commit_line(c)),
            "(no commits)"@,
        ),
{
    if commits.len() == 0 {
        return note("(no commits)");
    }
    let ghost shows = |c: CommitInfo| commit_line(c);
    let draw = |c: &CommitInfo| -> (r: Vec<Span>)
            ensures
                line_view(r@) == commit_line(*c),
            { draw_commit(c) };
    each_line(commits, draw, Ghost(shows))
}

// ── Files and diffs ──────────────────────

pub open spec fn side_tint(staged: bool) -> Color {
    if staged {
        Color::Green
    } else {
        Color::Yellow
    }
}

pub open spec fn change_line(c: FileChange) -> Seq<SpanView> {
    seq![
        bare("  "@),
        tinted(short_code(c.status), side_tint(c.staged)),
        bare(" "@ + c.path@),
    ]
}

/// The lines of the changes on one side.
pub open spec fn side_lines(changes: Seq<FileChange>, staged: bool) -> Seq<Seq<SpanView>>
    decreases changes.len(),
{
    if changes.len() == 0 {
        seq![]
    } else {
        let so_far = side_lines(changes.drop_last(), staged);
        if changes.last().staged == staged {
            so_far.push(change_line(changes.last()))
        } else {
            so_far
        }
    }
}

pub open spec fn side_title(staged: bool) -> Seq<SpanView> {
    seq![
        shown(
            if staged {
                "Staged:"@
            } else {
                "Unstaged:"@
            },
            Style::plain().fg(side_tint(staged)).bold(),
        ),
    ]
}

/// A side with its title, if it has changes.
pub open spec fn side_shown(changes: Seq<FileChange>, staged: bool) -> Seq<Seq<SpanView>> {
    if side_lines(changes, staged).len() == 0 {
        seq![]
    } else {
        seq![side_title(staged)] + side_lines(changes, staged)
    }
}

/// The staged changes, then the others, with an empty line between.
pub open spec fn changes_shown(changes: Seq<FileChange>) -> Seq<Seq<SpanView>> {
    if changes.len() == 0 {
        seq![plain_line("(clean working tree)"@)]
    } else {
        let staged = side_shown(changes, true);
        let unstaged = side_shown(changes, false);
        if staged.len() > 0 && unstaged.len() > 0 {
            staged + seq![Seq::<SpanView>::empty()] + unstaged
        } else {
            staged + unstaged
        }
    }
}

fn tint_of_side(staged: bool) -> (r: Color)
    ensures
        r == side_tint(staged),
{
    if staged {
        Color::Green
    } else {
        Color::Yellow
    }
}

fn draw_side(changes: &Vec<FileChange>, staged: bool) -> (r: Vec<Vec<Span>>)
    ensures
        lines_view(r@) == side_shown(changes@, staged),
{
    let title = one(
        Span::new(
            if staged {
                "Staged:"
            } else {
                "Unstaged:"
            },
            Style::plain().fg(tint_of_side(staged)).bold(),
        ),
    );
    let mut out: Vec<Vec<Span>> = Vec::new();
    let mut i: usize = 0;
    assert(changes@.take(0) =~= seq![]);
    assert(lines_view(out@) =~= side_lines(changes@.take(0), staged));
    while i < changes.len()
        invariant
            i <= changes@.len(),
            lines_view(out@) == side_lines(changes@.take(i as int), staged),
        decreases changes@.len() - i,
    {
        assert(changes@.take(i + 1).drop_last() =~= changes@.take(i as int));
        if changes[i].staged == staged {
            let path = text::copy(" ").concat(changes[i].path.as_str());
            let line = vec![
                Span::bare("  "),
                Span::tinted(changes[i].status.short(), tint_of_side(staged)),
                Span::bare(path.as_str()),
            ];
            assert(line_view(line@) =~= change_line(changes@[i as int]));
            let ghost before = lines_view(out@);
            out.push(line);
            assert(lines_view(out@) =~= before.push(line_view(line@)));
        }
        i = i + 1;
    }
    assert(changes@.take(i as int) =~= changes@);
    if out.len() == 0 {
        assert(lines_view(out@) =~= seq![]);
        out
    } else {
        let mut all: Vec<Vec<Span>> = Vec::new();
        all.push(title);
        assert(lines_view(all@) =~= seq![side_title(staged)]);
        followed_by(all, out)
    }
}

/// The changed files of a working tree.
pub fn print_file_changes(changes: &Vec<FileChange>) -> (r: Vec<Vec<Span>>)
    ensures
        lines_view(r@) == changes_shown(changes@),
{
    if changes.len() == 0 {
        return note("(clean working tree)");
    }
    let staged = draw_side(changes, true);
    let unstaged = draw_side(changes, false);
    if staged.len() > 0 && unstaged.len() > 0 {
        let mut gap: Vec<Vec<Span>> = Vec::new();
        let empty: Vec<Span> = Vec::new();
        assert(line_view(empty@) =~= seq![]);
        gap.push(empty);
        assert(lines_view(gap@) =~= seq![Seq::<SpanView>::empty()]);
        let both = followed_by(staged, gap);
        followed_by(both, unstaged)
    } else {
        followed_by(staged, unstaged)
    }
}

/// Every change is shown on one of the two sides.
pub proof fn changes_are_all_shown(changes: Seq<FileChange>)
    ensures
        side_lines(changes, true).len() + side_lines(changes, false).len() == changes.len(),
    decreases changes.len(),
{
    if changes.len() > 0 {
        changes_are_all_shown(changes.drop_last());
    }
}

/// How a line of a diff is drawn.
pub open spec fn diff_style(line: Seq<char>) -> Style {
    if "+++"@.is_prefix_of(line) || "---"@.is_prefix_of(line) {
        Style::plain().bold()
    } else if "+"@.is_prefix_of(line) {
        Style::plain().fg(Color::Green)
    } else if "-"@.is_prefix_of(line) {
        Style::plain().fg(Color::Red)
    } else if "@@"@.is_prefix_of(line) {
        Style::plain().fg(Color::Cyan)
    } else if "diff --git"@.is_prefix_of(line) {
        Style::plain().bold().bright()
    } else {
        Style::plain()
    }
}

pub open spec fn diff_line(line: Seq<char>) -> Seq<SpanView> {
    seq![shown(line, diff_style(line))]
}

fn style_of_diff(line: &str) -> (r: Style)
    ensures
        r == diff_style(line@),
{
    if text::starts_with(line, "+++") || text::starts_with(line, "---") {
        Style::plain().bold()
    } else if text::starts_with(line, "+") {
        Style::plain().fg(Color::Green)
    } else if text::starts_with(line, "-") {
        Style::plain().fg(Color::Red)
    } else if text::starts_with(line, "@@") {
        Style::plain().fg(Color::Cyan)
    } else if text::starts_with(line, "diff --git") {
        Style::plain().bold().bright()
    } else {
        Style::plain()
    }
}

/// A diff, line by line.
pub fn print_diff(diff: &str) -> (r: Vec<Vec<Span>>)
    ensures
        lines_view(r@) == lines_of(diff@).map_values(|l: Seq<char>| diff_line(l)),
{
    let lines = text::lines(diff);
    let ghost shows = |l: String| diff_line(l@);
    let draw = |l: &String| -> (r: Vec<Span>)
            ensures
                line_view(r@) == diff_line(l@),
            { one(Span::new(l.as_str(), style_of_diff(l.as_str()))) };
    let r = each_line(&lines, draw, Ghost(shows));
    assert(lines@.map_values(shows) =~= texts(lines@).map_values(
        |l: Seq<char>| diff_line(l),
    ));
    r
}

pub open spec fn file_label(status: Seq<char>) -> SpanView {
    if status == "added"@ {
        tinted("A"@, Color::Green)
    } else if status == "deleted"@ {
        tinted("D"@, Color::Red)
    } else if status == "modified"@ {
        tinted("M"@, Color::Yellow)
    } else if status == "renamed"@ {
        tinted("R"@, Color::Cyan)
    } else if status == "copied"@ {
        tinted("C"@, Color::Cyan)
    } else {
        bare("?"@)
    }
}

pub open spec fn file_line(f: CommitFileChange) -> Seq<SpanView> {
    seq![bare("  "@), file_label(f.status@), bare(" "@ + f.path@)]
}

fn draw_file_label(status: &str) -> (r: Span)
    ensures
        r@ == file_label(status@),
{
    if text::same(status, "added") {
        Span::tinted("A", Color::Green)
    } else if text::same(status, "deleted") {
        Span::tinted("D", Color::Red)
    } else if text::same(status, "modified") {
        Span::tinted("M", Color::Yellow)
    } else if text::same(status, "renamed") {
        Span::tinted("R", Color::Cyan)
    } else if text::same(status, "copied") {
        Span::tinted("C", Color::Cyan)
    } else {
        Span::bare("?")
    }
}

/// The files of a commit.
pub fn print_commit_files(files: &Vec<CommitFileChange>) -> (r: Vec<Vec<Span>>)
    ensures
        lines_view(r@) == listed(
            files@.map_values(|f: CommitFileChange| file_line(f)),
            "(no file changes)"@,
        ),
{
    if files.len() == 0 {
        return note("(no file changes)");
    }
    let ghost shows = |f: CommitFileChange|
        file_line(f);
    let draw = |f: &CommitFileChange| -> (r: Vec<Span>)
            ensures
                line_view(r@) == file_line(*f),
            {
                let path = text::copy(" ").concat(f.path.as_str());
                let line = vec![
                    Span::bare("  "),
                    draw_file_label(f.status.as_str()),
                    Span::bare(path.as_str()),
                ];
                assert(line_view(line@) =~= file_line(*f));
                line
            };
    each_line(files, draw, Ghost(shows))
}

// ── Branches, stashes, remotes ───────────

pub open spec fn branch_line(b: BranchInfo) -> Seq<SpanView> {
    seq![
        bare(
            if b.is_head {
                "  * "@
            } else {
                "    "@
            },
        ),
        if b.is_head {
            shown(b.name@, Style::plain().fg(Color::Green).bold())
        } else if b.is_remote {
            tinted(b.name@, Color::Red)
        } else {
            bare(b.name@)
        },
    ] + match b.upstream {
        Some(u) => seq![shown(" → "@ + u@, Style::plain().dim())],
        None => seq![],
    }
}

fn draw_branch(b: &BranchInfo) -> (r: Vec<Span>)
    ensures
        line_view(r@) == branch_line(*b),
{
    let name = if b.is_head {
        Span::new(b.name.as_str(), Style::plain().fg(Color::Green).bold())
    } else if b.is_remote {
        Span::tinted(b.name.as_str(), Color::Red)
    } else {
        Span::bare(b.name.as_str())
    };
    let mut line = vec![
        Span::bare(
            if b.is_head {
                "  * "
            } else {
                "    "
            },
        ),
        name,
    ];
    if let Some(u) = &b.upstream {
        let s = text::copy(" → ").concat(u.as_str());
        line.push(Span::new(s.as_str(), Style::plain().dim()));
    }
    assert(line_view(line@) =~= branch_line(*b));
    line
}

/// Branches, one to a line.
pub fn print_branches(branches: &Vec<BranchInfo>) -> (r: Vec<Vec<Span>>)
    ensures
        lines_view(r@) == listed(
            branches@.map_values(|b: BranchInfo| branch_line(b)),
            "(no branches)"@,
        ),
{
    if branches.len() == 0 {
        return note("(no branches)");
    }
    let ghost shows = |b: BranchInfo| branch_line(b);
    let draw = |b: &BranchInfo| -> (r: Vec<Span>)
            ensures
                line_view(r@) == branch_line(*b),
            { draw_branch(b) };
    each_line(branches, draw, Ghost(shows))
}

pub open spec fn stash_line(s: StashEntry) -> Seq<SpanView> {
    plain_line("  stash@{"@ + decimal_of(s.index as nat) + "}: "@ + s.message@)
}

/// Stashes, one to a line.
pub fn print_stashes(stashes: &Vec<StashEntry>) -> (r: Vec<Vec<Span>>)
    ensures
        lines_view(r@) == listed(
            stashes@.map_values(|s: StashEntry| stash_line(s)),
            "(no stashes)"@,
        ),
{
    if stashes.len() == 0 {
        return note("(no stashes)");
    }
    let ghost shows = |s: StashEntry| stash_line(s);
    let draw = |s: &StashEntry| -> (r: Vec<Span>)
            ensures
                line_view(r@) == stash_line(*s),
            {
                let index = text::decimal(s.index as u64);
                let line = text::copy("  stash@{").concat(index.as_str()).concat("}: ").concat(
                    s.message.as_str(),
                );
                one(Span::bare(line.as_str()))
            };
    each_line(stashes, draw, Ghost(shows))
}

pub open spec fn remote_table(remotes: Seq<RemoteInfo>) -> Seq<PrintedView> {
    if remotes.len() == 0 {
        seq![PrintedView::Line(plain_line("(no remotes)"@))]
    } else {
        seq![
            PrintedView::Table {
                header: seq![heading_shown("NAME"@), heading_shown("URL"@)],
                rows: remotes.map_values(|r: RemoteInfo| seq![bare(r.name@), bare(r.url@)]),
            },
        ]
    }
}

/// A table of remotes.
pub fn print_remotes(remotes: &Vec<RemoteInfo>) -> (r: Vec<Printed>)
    ensures
        printed_view(r@) == remote_table(remotes@),
{
    let mut out: Vec<Printed> = Vec::new();
    if remotes.len() == 0 {
        out.push(Printed::Line(one(Span::bare("(no remotes)"))));
    } else {
        let header = vec![heading("NAME"), heading("URL")];
        assert(line_view(header@) =~= seq![heading_shown("NAME"@), heading_shown("URL"@)]);
        let ghost shows = |r: RemoteInfo|
            seq![bare(r.name@), bare(r.url@)];
        let draw = |r: &RemoteInfo| -> (row: Vec<Span>)
                ensures
                    line_view(row@) == seq![bare(r.name@), bare(r.url@)],
                {
                    let row = vec![Span::bare(r.name.as_str()), Span::bare(r.url.as_str())];
                    assert(line_view(row@) =~= seq![bare(r.name@), bare(r.url@)]);
                    row
                };
        let rows = each_line(remotes, draw, Ghost(shows));
        out.push(Printed::Table { header, rows });
    }
    assert(printed_view(out@) =~= remote_table(remotes@));
    out
}

} // verus!
