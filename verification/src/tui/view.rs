//! What is drawn of the terminal interface.
use vstd::prelude::*;
use vstd::string::*;

use crate::models::{health_name, health_text, short_code, BranchInfo, CommitInfo, FileChange,
    FileStatus, RefKind, RefLabel, RepoHealth, RepoInfo, StashEntry};
use crate::style::{bare, line_view, lines_view, one, shown, tinted};
use crate::style::{Color, Span, SpanView, Style};
use crate::text;
use crate::text::{cut_first, decimal_of, first_line_of, joined, opt_view, texts};
use crate::tui::app::{bulk_verb, elapsed, passed, running_verb, tab_index, tab_title, App,
    AppView, BulkState, BulkView, Detail, DetailView, Level, Mode, SingleState, SingleView, Tab};
use crate::tui::format::{bytes_text, duration_text, fmt_bytes, fmt_duration, spinner,
    spinner_frame};
use crate::tui::keys::{settle, settled};

verus! {

/// The width of a column.
#[derive(Debug, Clone, Copy, PartialEq, Eq, Structural)]
pub enum Width {
    Length(u16),
    Min(u16),
}

/// A row of cells, each of which holds some spans.
pub type Row = Vec<Vec<Span>>;

/// A table with a title and a selected row.
pub struct TableModel {
    pub title: String,
    pub header: Vec<Span>,
    pub widths: Vec<Width>,
    pub rows: Vec<Row>,
    pub selected: Option<usize>,
    /// How the selected row is drawn.
    pub highlight: Style,
}

pub struct TableView {
    pub title: Seq<char>,
    pub header: Seq<SpanView>,
    pub widths: Seq<Width>,
    pub rows: Seq<Seq<Seq<SpanView>>>,
    pub selected: Option<usize>,
    pub highlight: Style,
}

pub open spec fn rows_view(v: Seq<Row>) -> Seq<Seq<Seq<SpanView>>> {
    v.map_values(|r: Row| lines_view(r@))
}

impl View for TableModel {
    type V = TableView;

    open spec fn view(&self) -> TableView {
        TableView {
            title: self.title@,
            header: line_view(self.header@),
            widths: self.widths@,
            rows: rows_view(self.rows@),
            selected: self.selected,
            highlight: self.highlight,
        }
    }
}

/// What a tab shows.
pub enum Body {
    /// A remark in place of a table.
    Remark { title: String, text: String },
    Table(TableModel),
    /// A text to scroll through.
    Page { title: String, text: String, scroll: u16 },
}

pub enum BodyView {
    Remark { title: Seq<char>, text: Seq<char> },
    Table(TableView),
    Page { title: Seq<char>, text: Seq<char>, scroll: u16 },
}

impl View for Body {
    type V = BodyView;

    open spec fn view(&self) -> BodyView {
        match self {
            Body::Remark { title, text } => BodyView::Remark { title: title@, text: text@ },
            Body::Table(t) => BodyView::Table(t@),
            Body::Page { title, text, scroll } => BodyView::Page {
                title: title@,
                text: text@,
                scroll: *scroll,
            },
        }
    }
}

/// A repository in detail.
pub struct DetailModel {
    pub summary: Vec<Vec<Span>>,
    pub tabs: Vec<String>,
    pub selected_tab: usize,
    pub body: Body,
}

pub struct DetailModelView {
    pub summary: Seq<Seq<SpanView>>,
    pub tabs: Seq<Seq<char>>,
    pub selected_tab: int,
    pub body: BodyView,
}

impl View for DetailModel {
    type V = DetailModelView;

    open spec fn view(&self) -> DetailModelView {
        DetailModelView {
            summary: lines_view(self.summary@),
            tabs: texts(self.tabs@),
            selected_tab: self.selected_tab as int,
            body: self.body@,
        }
    }
}

/// The middle of the screen.
pub enum Main {
    Dashboard(TableModel),
    Detail(DetailModel),
    Nothing,
}

pub enum MainView {
    Dashboard(TableView),
    Detail(DetailModelView),
    Nothing,
}

impl View for Main {
    type V = MainView;

    open spec fn view(&self) -> MainView {
        match self {
            Main::Dashboard(t) => MainView::Dashboard(t@),
            Main::Detail(d) => MainView::Detail(d@),
            Main::Nothing => MainView::Nothing,
        }
    }
}

/// The whole screen.
pub struct Screen {
    pub title: Vec<Span>,
    pub right: Vec<Span>,
    pub main: Main,
    /// What is drawn over the rest.
    pub help: Option<Vec<Vec<Span>>>,
    pub status: Span,
}

pub struct ScreenView {
    pub title: Seq<SpanView>,
    pub right: Seq<SpanView>,
    pub main: MainView,
    pub help: Option<Seq<Seq<SpanView>>>,
    pub status: SpanView,
}

impl View for Screen {
    type V = ScreenView;

    open spec fn view(&self) -> ScreenView {
        ScreenView {
            title: line_view(self.title@),
            right: line_view(self.right@),
            main: self.main@,
            help: match self.help {
                Some(v) => Some(lines_view(v@)),
                None => None,
            },
            status: self.status@,
        }
    }
}

/// One row for each value of a list.
fn each_row<T, F: Fn(&T) -> Row>(
    v: &Vec<T>,
    draw: F,
    Ghost(shows): Ghost<spec_fn(T) -> Seq<Seq<SpanView>>>,
) -> (r: Vec<Row>)
    requires
        forall|x: T| call_requires(draw, (&x,)),
        forall|x: T, l: Row| #[trigger]
            call_ensures(draw, (&x,), l) ==> lines_view(l@) == shows(x),
    ensures
        rows_view(r@) == v@.map_values(shows),
{
    let mut out: Vec<Row> = Vec::new();
    let mut i: usize = 0;
    assert(rows_view(out@) =~= v@.take(0).map_values(shows));
    while i < v.len()
        invariant
            forall|x: T| call_requires(draw, (&x,)),
            forall|x: T, l: Row| #[trigger]
                call_ensures(draw, (&x,), l) ==> lines_view(l@) == shows(x),
            i <= v@.len(),
            rows_view(out@) == v@.take(i as int).map_values(shows),
        decreases v@.len() - i,
    {
        let l = draw(&v[i]);
        let ghost before = rows_view(out@);
        out.push(l);
        assert(rows_view(out@) =~= before.push(lines_view(l@)));
        assert(v@.take(i + 1).map_values(shows) =~= v@.take(i as int).map_values(shows).push(
            shows(v@[i as int]),
        ));
        i = i + 1;
    }
    assert(v@.take(i as int) =~= v@);
    out
}

// ── Styles ───────────────────────────────

pub open spec fn health_shade(h: RepoHealth) -> Color {
    match h {
        RepoHealth::Clean => Color::Green,
        RepoHealth::Dirty => Color::Yellow,
        RepoHealth::Diverged => Color::Magenta,
        RepoHealth::Error => Color::Red,
    }
}

pub fn health_color(h: RepoHealth) -> (r: Color)
    ensures
        r == health_shade(h),
{
    match h {
        RepoHealth::Clean => Color::Green,
        RepoHealth::Dirty => Color::Yellow,
        RepoHealth::Diverged => Color::Magenta,
        RepoHealth::Error => Color::Red,
    }
}

pub open spec fn gray(s: Seq<char>) -> SpanView {
    tinted(s, Color::DarkGray)
}

fn in_gray(s: &str) -> (r: Span)
    ensures
        r@ == gray(s@),
{
    Span::tinted(s, Color::DarkGray)
}

pub open spec fn bold_in(c: Color) -> Style {
    Style::plain().fg(c).bold()
}

/// A count: in gray where it is zero, and else in the given style.
pub open spec fn counter(n: u32, style: Style) -> SpanView {
    if n == 0 {
        gray(decimal_of(n as nat))
    } else {
        shown(decimal_of(n as nat), style)
    }
}

pub fn count_cell(n: u32, style: Style) -> (r: Span)
    ensures
        r@ == counter(n, style),
{
    let s = text::decimal(n as u64);
    if n == 0 {
        in_gray(s.as_str())
    } else {
        Span::new(s.as_str(), style)
    }
}

/// Clean repositories are drawn plain; only those that need attention are
/// tinted.
pub open spec fn name_shown(r: RepoInfo) -> SpanView {
    shown(
        r.name@,
        if r.health == RepoHealth::Clean {
            Style::plain().bold()
        } else {
            Style::plain().bold().fg(health_shade(r.health))
        },
    )
}

pub fn name_cell(r: &RepoInfo) -> (s: Span)
    ensures
        s@ == name_shown(*r),
{
    let style = if r.health == RepoHealth::Clean {
        Style::plain().bold()
    } else {
        Style::plain().bold().fg(health_color(r.health))
    };
    Span::new(r.name.as_str(), style)
}

pub open spec fn file_style(s: FileStatus) -> Style {
    match s {
        FileStatus::Added => Style::plain().fg(Color::Green),
        FileStatus::Modified => Style::plain().fg(Color::Yellow),
        FileStatus::Deleted => Style::plain().fg(Color::Red),
        FileStatus::Renamed => Style::plain().fg(Color::Cyan),
        FileStatus::Untracked => Style::plain().fg(Color::DarkGray),
        FileStatus::Conflicted => Style::plain().fg(Color::Red).bold(),
    }
}

pub fn file_status_style(s: FileStatus) -> (r: Style)
    ensures
        r == file_style(s),
{
    match s {
        FileStatus::Added => Style::plain().fg(Color::Green),
        FileStatus::Modified => Style::plain().fg(Color::Yellow),
        FileStatus::Deleted => Style::plain().fg(Color::Red),
        FileStatus::Renamed => Style::plain().fg(Color::Cyan),
        FileStatus::Untracked => Style::plain().fg(Color::DarkGray),
        FileStatus::Conflicted => Style::plain().fg(Color::Red).bold(),
    }
}

pub open spec fn label_shown(l: RefLabel) -> SpanView {
    match l.kind {
        RefKind::Head => shown("HEAD→"@ + l.name@, bold_in(Color::Green)),
        RefKind::Local => tinted(l.name@, Color::Cyan),
        RefKind::Remote => tinted("r/"@ + l.name@, Color::Yellow),
        RefKind::Tag => tinted("tag:"@ + l.name@, Color::Magenta),
    }
}

pub fn ref_span(l: &RefLabel) -> (r: Span)
    ensures
        r@ == label_shown(*l),
{
    match l.kind {
        RefKind::Head => {
            let s = text::copy("HEAD→").concat(l.name.as_str());
            Span::new(s.as_str(), Style::plain().fg(Color::Green).bold())
        },
        RefKind::Local => Span::tinted(l.name.as_str(), Color::Cyan),
        RefKind::Remote => {
            let s = text::copy("r/").concat(l.name.as_str());
            Span::tinted(s.as_str(), Color::Yellow)
        },
        RefKind::Tag => {
            let s = text::copy("tag:").concat(l.name.as_str());
            Span::tinted(s.as_str(), Color::Magenta)
        },
    }
}

// ── Header and status line ───────────────

pub open spec fn mode_shown(a: AppView) -> SpanView {
    match a.mode {
        Mode::Dashboard => bare("dashboard"@),
        Mode::Search => tinted("search: "@ + a.search + "_"@, Color::Yellow),
        Mode::Detail => tinted(
            "repo: "@ + match a.detail {
                Some(d) => if d.repo_index < a.repos.len() {
                    a.repos[d.repo_index as int].name@
                } else {
                    ""@
                },
                None => ""@,
            },
            Color::Cyan,
        ),
        Mode::Help => bare("help"@),
    }
}

/// The left side of the header.
pub open spec fn title_shown(a: AppView) -> Seq<SpanView> {
    seq![
        shown(" GitAtlas "@, Style::plain().fg(Color::Black).bg(Color::Cyan).bold()),
        bare("  "@),
        mode_shown(a),
    ]
}

/// The right side of the header.
pub open spec fn right_shown(a: AppView) -> Seq<SpanView> {
    seq![
        gray(
            match a.filter_health {
                None => "all"@,
                Some(h) => "filter:"@ + health_text(h),
            },
        ),
        bare("  "@),
        gray(decimal_of(a.filtered().len()) + " repos"@),
        bare("  "@),
        gray("? help"@),
    ]
}

/// The two sides of the header.
pub fn draw_header(app: &App) -> (r: (Vec<Span>, Vec<Span>))
    ensures
        line_view(r.0@) == title_shown(app@),
        line_view(r.1@) == right_shown(app@),
{
    let mode = match app.mode {
        Mode::Dashboard => Span::bare("dashboard"),
        Mode::Search => {
            let s = text::copy("search: ").concat(app.search.as_str()).concat("_");
            Span::tinted(s.as_str(), Color::Yellow)
        },
        Mode::Detail => {
            let name = match &app.detail {
                Some(d) => if d.repo_index < app.repos.len() {
                    app.repos[d.repo_index].name.as_str()
                } else {
                    ""
                },
                None => "",
            };
            let s = text::copy("repo: ").concat(name);
            Span::tinted(s.as_str(), Color::Cyan)
        },
        Mode::Help => Span::bare("help"),
    };
    let title = vec![
        Span::new(" GitAtlas ", Style::plain().fg(Color::Black).bg(Color::Cyan).bold()),
        Span::bare("  "),
        mode,
    ];
    assert(line_view(title@) =~= title_shown(app@));
    let filter = match app.filter_health {
        None => text::copy("all"),
        Some(h) => text::copy("filter:").concat(health_name(h)),
    };
    let rows = app.filtered();
    let count = text::decimal(rows.len() as u64).concat(" repos");
    let right = vec![
        in_gray(filter.as_str()),
        Span::bare("  "),
        in_gray(count.as_str()),
        Span::bare("  "),
        in_gray("? help"),
    ];
    assert(line_view(right@) =~= right_shown(app@));
    (title, right)
}

pub open spec fn transfer_text(t: Option<(usize, usize, usize, usize)>) -> Seq<Seq<char>> {
    match t {
        Some((bytes, indexed, received, total)) => if total > 0 {
            seq![
                bytes_text(bytes as nat) + " • "@ + decimal_of(received as nat) + "/"@ + decimal_of(
                    total as nat,
                ) + " objects (indexed "@ + decimal_of(indexed as nat) + ")"@,
            ]
        } else if bytes > 0 {
            seq![bytes_text(bytes as nat)]
        } else {
            seq![]
        },
        None => seq![],
    }
}

pub open spec fn push_text(p: Option<(usize, usize, usize)>) -> Seq<Seq<char>> {
    match p {
        Some((current, total, bytes)) => if total > 0 {
            seq![
                decimal_of(current as nat) + "/"@ + decimal_of(total as nat) + " objects • "@
                    + bytes_text(bytes as nat),
            ]
        } else {
            seq![]
        },
        None => seq![],
    }
}

pub open spec fn rebase_text(p: Option<(usize, usize)>) -> Seq<Seq<char>> {
    match p {
        Some((current, total)) => if total > 0 {
            seq!["rebase "@ + (decimal_of(current as nat) + "/"@ + decimal_of(total as nat))]
        } else {
            seq![]
        },
        None => seq![],
    }
}

/// The latest reference, or else the latest line of the server.
pub open spec fn latest_text(tip: Option<Seq<char>>, sideband: Option<Seq<char>>) -> Seq<Seq<char>> {
    match tip {
        Some(t) => seq![t],
        None => match sideband {
            Some(l) => seq![l],
            None => seq![],
        },
    }
}

/// What is known of the progress of an operation: the stage, or what is being
/// done; how much was transferred; the step of a rebase; the latest reference
/// or line of the server; and the time it has taken.
pub open spec fn progress_parts(s: SingleView, now: u64) -> Seq<Seq<char>> {
    seq![
        match s.progress.stage {
            Some(t) => t,
            None => running_verb(s.op),
        },
    ] + transfer_text(s.progress.transfer) + push_text(s.progress.push) + rebase_text(
        s.progress.rebase,
    ) + latest_text(s.progress.tip, s.progress.sideband) + seq![
        duration_text(passed(s.started, now)),
    ]
}

/// The progress of an operation in one line.
pub open spec fn progress_summary(s: SingleView, now: u64) -> Seq<char> {
    seq![spinner()[(passed(s.started, now) as int / 80) % 10]] + " "@ + s.name + " "@ + joined(
        progress_parts(s, now),
        " • "@,
    )
}

fn numbers(a: usize, b: usize) -> (r: String)
    ensures
        r@ == decimal_of(a as nat) + "/"@ + decimal_of(b as nat),
{
    let x = text::decimal(a as u64);
    let y = text::decimal(b as u64);
    x.concat("/").concat(y.as_str())
}

fn add_part(parts: Vec<String>, part: String) -> (r: Vec<String>)
    ensures
        texts(r@) == texts(parts@) + seq![part@],
{
    let mut out = parts;
    out.push(part);
    assert(texts(out@) =~= texts(parts@) + seq![part@]);
    out
}

fn add_transfer(parts: Vec<String>, t: Option<(usize, usize, usize, usize)>) -> (r: Vec<String>)
    ensures
        texts(r@) == texts(parts@) + transfer_text(t),
{
    assert(texts(parts@) + Seq::<Seq<char>>::empty() =~= texts(parts@));
    match t {
        Some((bytes, indexed, received, total)) => {
            let b = fmt_bytes(bytes);
            if total > 0 {
                let x = text::decimal(received as u64);
                let y = text::decimal(total as u64);
                let z = text::decimal(indexed as u64);
                let part = b.concat(" • ").concat(x.as_str()).concat("/").concat(
                    y.as_str(),
                ).concat(" objects (indexed ").concat(z.as_str()).concat(")");
                add_part(parts, part)
            } else if bytes > 0 {
                add_part(parts, b)
            } else {
                parts
            }
        },
        None => parts,
    }
}

fn add_push(parts: Vec<String>, p: Option<(usize, usize, usize)>) -> (r: Vec<String>)
    ensures
        texts(r@) == texts(parts@) + push_text(p),
{
    assert(texts(parts@) + Seq::<Seq<char>>::empty() =~= texts(parts@));
    match p {
        Some((current, total, bytes)) => if total > 0 {
            let b = fmt_bytes(bytes);
            add_part(parts, numbers(current, total).concat(" objects • ").concat(b.as_str()))
        } else {
            parts
        },
        None => parts,
    }
}

fn add_rebase(parts: Vec<String>, p: Option<(usize, usize)>) -> (r: Vec<String>)
    ensures
        texts(r@) == texts(parts@) + rebase_text(p),
{
    assert(texts(parts@) + Seq::<Seq<char>>::empty() =~= texts(parts@));
    match p {
        Some((current, total)) => if total > 0 {
            let n = numbers(current, total);
            add_part(parts, text::copy("rebase ").concat(n.as_str()))
        } else {
            parts
        },
        None => parts,
    }
}

fn add_latest(parts: Vec<String>, tip: &Option<String>, sideband: &Option<String>) -> (r: Vec<
    String,
>)
    ensures
        texts(r@) == texts(parts@) + latest_text(opt_view(*tip), opt_view(*sideband)),
{
    assert(texts(parts@) + Seq::<Seq<char>>::empty() =~= texts(parts@));
    match tip {
        Some(t) => add_part(parts, t.clone()),
        None => match sideband {
            Some(l) => add_part(parts, l.clone()),
            None => parts,
        },
    }
}

/// The progress of an operation in one line.
pub fn single_progress_summary(s: &SingleState, now: u64) -> (r: String)
    ensures
        r@ == progress_summary(s@, now),
{
    let time = elapsed(s.started, now);
    let stage = match &s.progress.stage {
        Some(t) => t.clone(),
        None => text::copy(s.op.progress_verb()),
    };
    let none: Vec<String> = Vec::new();
    let parts = add_part(none, stage);
    assert(texts(parts@) =~= seq![stage@]);
    let parts = add_transfer(parts, s.progress.transfer);
    let parts = add_push(parts, s.progress.push);
    let parts = add_rebase(parts, s.progress.rebase);
    let parts = add_latest(parts, &s.progress.tip, &s.progress.sideband);
    let parts = add_part(parts, fmt_duration(time));
    let list = text::join(&parts, " • ");
    let mut line = String::new();
    line.push(spinner_frame(time));
    assert(line@ =~= seq![spinner()[(passed(s.started, now) as int / 80) % 10]]);
    line.concat(" ").concat(s.name.as_str()).concat(" ").concat(list.as_str())
}

pub open spec fn level_color(l: Level) -> Color {
    match l {
        Level::Info => Color::Blue,
        Level::Success => Color::Green,
        Level::Warn => Color::Yellow,
        Level::Error => Color::Red,
    }
}

pub open spec fn hint_text(m: Mode) -> Seq<char> {
    match m {
        Mode::Dashboard => " ↑/↓ move  enter open  /search  a/c/d/v/e filter  f fetch  p pull  P push  F/U bulk  s scan  q quit"@,
        Mode::Search => " type to filter   enter apply   esc cancel"@,
        Mode::Detail => " ←/→ tab  ↑/↓ move  f fetch  p pull  P push  R reload  esc back  q quit"@,
        Mode::Help => " esc/? close help"@,
    }
}

pub open spec fn bulk_label(b: BulkView) -> Seq<char> {
    " "@ + bulk_verb(b.op) + " "@ + decimal_of(b.done as nat) + "/"@ + decimal_of(b.total as nat)
        + " "@ + match b.current {
        Some(c) => c,
        None => ""@,
    }
}

pub open spec fn busy_style() -> Style {
    Style::plain().fg(Color::Black).bg(Color::Yellow)
}

/// The status line: what is running, or else a message, or else a hint.
pub open spec fn status_shown(a: AppView, now: u64) -> SpanView {
    match a.bulk {
        Some(b) => shown(bulk_label(b), busy_style()),
        None => match a.single {
            Some(s) => shown(" "@ + progress_summary(s, now) + " "@, busy_style()),
            None => match a.status {
                Some(m) => tinted(" "@ + m.text, level_color(m.level)),
                None => gray(hint_text(a.mode)),
            },
        },
    }
}

fn label_bulk(b: &BulkState) -> (r: String)
    ensures
        r@ == bulk_label(b@),
{
    let current = match &b.current {
        Some(c) => c.as_str(),
        None => "",
    };
    let done = text::decimal(b.done as u64);
    let total = text::decimal(b.total as u64);
    text::copy(" ").concat(b.op.verb()).concat(" ").concat(done.as_str()).concat("/").concat(
        total.as_str(),
    ).concat(" ").concat(current)
}

/// The status line.
pub fn draw_statusline(app: &App, now: u64) -> (r: Span)
    ensures
        r@ == status_shown(app@, now),
{
    if let Some(b) = &app.bulk {
        let label = label_bulk(b);
        return Span::new(label.as_str(), Style::plain().fg(Color::Black).bg(Color::Yellow));
    }
    if let Some(s) = &app.single {
        let summary = single_progress_summary(s, now);
        let label = text::copy(" ").concat(summary.as_str()).concat(" ");
        return Span::new(label.as_str(), Style::plain().fg(Color::Black).bg(Color::Yellow));
    }
    if let Some(m) = &app.status {
        let color = match m.level {
            Level::Info => Color::Blue,
            Level::Success => Color::Green,
            Level::Warn => Color::Yellow,
            Level::Error => Color::Red,
        };
        let s = text::copy(" ").concat(m.text.as_str());
        return Span::tinted(s.as_str(), color);
    }
    let hint = match app.mode {
        Mode::Dashboard => " ↑/↓ move  enter open  /search  a/c/d/v/e filter  f fetch  p pull  P push  F/U bulk  s scan  q quit",
        Mode::Search => " type to filter   enter apply   esc cancel",
        Mode::Detail => " ←/→ tab  ↑/↓ move  f fetch  p pull  P push  R reload  esc back  q quit",
        Mode::Help => " esc/? close help",
    };
    in_gray(hint)
}

// ── Dashboard ────────────────────────────

pub open spec fn dash_row(r: RepoInfo) -> Seq<Seq<SpanView>> {
    seq![
        seq![name_shown(r)],
        seq![tinted(r.branch@, Color::Cyan)],
        seq![counter(r.ahead, Style::plain().fg(Color::Green))],
        seq![counter(r.behind, Style::plain().fg(Color::Red))],
        seq![counter(r.dirty_files, bold_in(Color::Yellow))],
        seq![counter(r.stash_count, Style::plain().fg(Color::Magenta))],
        seq![shown(health_text(r.health), bold_in(health_shade(r.health)))],
        seq![gray(r.path@)],
    ]
}

fn draw_dash_row(r: &RepoInfo) -> (row: Row)
    ensures
        lines_view(row@) == dash_row(*r),
{
    let row = vec![
        one(name_cell(r)),
        one(Span::tinted(r.branch.as_str(), Color::Cyan)),
        one(count_cell(r.ahead, Style::plain().fg(Color::Green))),
        one(count_cell(r.behind, Style::plain().fg(Color::Red))),
        one(count_cell(r.dirty_files, Style::plain().fg(Color::Yellow).bold())),
        one(count_cell(r.stash_count, Style::plain().fg(Color::Magenta))),
        one(Span::new(health_name(r.health), Style::plain().fg(health_color(r.health)).bold())),
        one(in_gray(r.path.as_str())),
    ];
    assert(lines_view(row@) =~= dash_row(*r));
    row
}

pub open spec fn head_shown(s: Seq<char>) -> SpanView {
    shown(s, Style::plain().bold().fg(Color::Cyan))
}

fn head(s: &str) -> (r: Span)
    ensures
        r@ == head_shown(s@),
{
    Span::new(s, Style::plain().bold().fg(Color::Cyan))
}

pub open spec fn dash_title(h: Option<RepoHealth>) -> Seq<char> {
    match h {
        Some(h) => " repositories (filter: "@ + health_text(h) + ") "@,
        None => " repositories "@,
    }
}

/// The table of the dashboard: the repositories that pass, one to a row.
pub open spec fn dashboard_shown(a: AppView) -> TableView {
    TableView {
        title: dash_title(a.filter_health),
        header: seq![
            head_shown("NAME"@),
            head_shown("BRANCH"@),
            head_shown("AHEAD"@),
            head_shown("BEHIND"@),
            head_shown("DIRTY"@),
            head_shown("STASH"@),
            head_shown("HEALTH"@),
            head_shown("PATH"@),
        ],
        widths: seq![
            Width::Length(28),
            Width::Length(22),
            Width::Length(6),
            Width::Length(6),
            Width::Length(6),
            Width::Length(6),
            Width::Length(10),
            Width::Min(20),
        ],
        rows: a.filtered().map_values(|i: usize| dash_row(a.repos[i as int])),
        selected: a.dash_sel,
        highlight: Style::plain().bg(Color::DarkGray).bold(),
    }
}

/// The state with the selection of the dashboard brought within its rows.
pub open spec fn dash_settled(a: AppView) -> AppView {
    AppView { dash_sel: settled(a.dash_sel, a.filtered().len() as int), ..a }
}

fn dash_header() -> (r: Vec<Span>)
    ensures
        forall|a: AppView| line_view(r@) == #[trigger] dashboard_shown(a).header,
{
    let r = vec![
        head("NAME"),
        head("BRANCH"),
        head("AHEAD"),
        head("BEHIND"),
        head("DIRTY"),
        head("STASH"),
        head("HEALTH"),
        head("PATH"),
    ];
    assert forall|a: AppView| line_view(r@) == #[trigger] dashboard_shown(a).header by {
        assert(line_view(r@) =~= dashboard_shown(a).header);
    }
    r
}

/// The table of the dashboard, with the selection brought within its rows.
pub fn draw_dashboard(app: &mut App) -> (r: TableModel)
    ensures
        final(app)@ == dash_settled(old(app)@),
        r@ == dashboard_shown(final(app)@),
{
    let indices = app.filtered();
    app.dash_sel = settle(app.dash_sel, indices.len());
    let mut rows: Vec<Row> = Vec::new();
    let ghost want = indices@.map_values(|i: usize| dash_row(app.repos@[i as int]));
    let mut i: usize = 0;
    assert(rows_view(rows@) =~= want.take(0));
    while i < indices.len()
        invariant
            want == indices@.map_values(|i: usize| dash_row(app.repos@[i as int])),
            forall|k: int|
                0 <= k < indices@.len() ==> (#[trigger] indices@[k]) < app.repos@.len(),
            i <= indices@.len(),
            rows_view(rows@) == want.take(i as int),
        decreases indices@.len() - i,
    {
        let row = draw_dash_row(&app.repos[indices[i]]);
        let ghost before = rows_view(rows@);
        rows.push(row);
        assert(rows_view(rows@) =~= before.push(lines_view(row@)));
        assert(want.take(i + 1) =~= want.take(i as int).push(want[i as int]));
        i = i + 1;
    }
    assert(want.take(i as int) =~= want);
    let title = match app.filter_health {
        Some(h) => text::copy(" repositories (filter: ").concat(health_name(h)).concat(") "),
        None => text::copy(" repositories "),
    };
    let header = dash_header();
    let widths = vec![
        Width::Length(28),
        Width::Length(22),
        Width::Length(6),
        Width::Length(6),
        Width::Length(6),
        Width::Length(6),
        Width::Length(10),
        Width::Min(20),
    ];
    let table = TableModel {
        title,
        header,
        widths,
        rows,
        selected: app.dash_sel,
        highlight: Style::plain().bg(Color::DarkGray).bold(),
    };
    assert(table@.header == dashboard_shown(app@).header);
    assert(table@.widths =~= dashboard_shown(app@).widths);
    assert(table@.rows =~= dashboard_shown(app@).rows);
    table
}

// ── Detail ───────────────────────────────

/// The lines above the tabs. The name is tinted by the health, and each count
/// has its own color, or gray for none.
pub open spec fn summary_shown(r: RepoInfo) -> Seq<Seq<SpanView>> {
    seq![
        seq![
            shown(
                r.name@,
                Style::plain().bold().fg(
                    if r.health == RepoHealth::Clean {
                        Color::Cyan
                    } else {
                        health_shade(r.health)
                    },
                ),
            ),
            bare("  "@),
            gray("on "@),
            shown(r.branch@, bold_in(Color::Cyan)),
            bare("   "@),
            gray("↑"@),
            counter(r.ahead, bold_in(Color::Green)),
            bare(" "@),
            gray("↓"@),
            counter(r.behind, bold_in(Color::Red)),
            bare("   "@),
            gray("dirty "@),
            counter(r.dirty_files, bold_in(Color::Yellow)),
            bare("   "@),
            gray("stash "@),
            counter(r.stash_count, bold_in(Color::Magenta)),
            bare("   "@),
            shown(health_text(r.health), bold_in(health_shade(r.health))),
        ],
        seq![gray("path:   "@), gray(r.path@)],
    ]
}

fn draw_summary(r: &RepoInfo) -> (lines: Vec<Vec<Span>>)
    ensures
        lines_view(lines@) == summary_shown(*r),
{
    let color = if r.health == RepoHealth::Clean {
        Color::Cyan
    } else {
        health_color(r.health)
    };
    let first = vec![
        Span::new(r.name.as_str(), Style::plain().bold().fg(color)),
        Span::bare("  "),
        in_gray("on "),
        Span::new(r.branch.as_str(), Style::plain().fg(Color::Cyan).bold()),
        Span::bare("   "),
        in_gray("↑"),
        count_cell(r.ahead, Style::plain().fg(Color::Green).bold()),
        Span::bare(" "),
        in_gray("↓"),
        count_cell(r.behind, Style::plain().fg(Color::Red).bold()),
        Span::bare("   "),
        in_gray("dirty "),
        count_cell(r.dirty_files, Style::plain().fg(Color::Yellow).bold()),
        Span::bare("   "),
        in_gray("stash "),
        count_cell(r.stash_count, Style::plain().fg(Color::Magenta).bold()),
        Span::bare("   "),
        Span::new(health_name(r.health), Style::plain().fg(health_color(r.health)).bold()),
    ];
    assert(line_view(first@) =~= summary_shown(*r)[0]);
    let second = vec![in_gray("path:   "), in_gray(r.path.as_str())];
    assert(line_view(second@) =~= summary_shown(*r)[1]);
    let lines = vec![first, second];
    assert(lines_view(lines@) =~= summary_shown(*r));
    lines
}

pub open spec fn tab_highlight() -> Style {
    Style::plain().bg(Color::DarkGray)
}

/// A table, or a remark where there is nothing to show yet or at all.
pub open spec fn table_or_remark<T>(
    items: Option<Seq<T>>,
    none: Seq<char>,
    shows: spec_fn(T) -> Seq<Seq<SpanView>>,
    title: Seq<char>,
    header: Seq<SpanView>,
    widths: Seq<Width>,
    selected: Option<usize>,
) -> BodyView {
    match items {
        None => BodyView::Remark { title, text: "loading…"@ },
        Some(v) => if v.len() == 0 {
            BodyView::Remark { title, text: none }
        } else {
            BodyView::Table(
                TableView {
                    title,
                    header,
                    widths,
                    rows: v.map_values(shows),
                    selected,
                    highlight: tab_highlight(),
                },
            )
        },
    }
}

fn remark(title: &str, s: &str) -> (r: Body)
    ensures
        r@ == (BodyView::Remark { title: title@, text: s@ }),
{
    Body::Remark { title: text::copy(title), text: text::copy(s) }
}

pub open spec fn staged_shown(staged: bool) -> SpanView {
    if staged {
        tinted("staged"@, Color::Green)
    } else {
        tinted("unstaged"@, Color::Yellow)
    }
}

pub open spec fn change_row(c: FileChange) -> Seq<Seq<SpanView>> {
    seq![
        seq![staged_shown(c.staged)],
        seq![shown(short_code(c.status), file_style(c.status).bold())],
        seq![shown(c.path@, file_style(c.status))],
    ]
}

pub open spec fn changes_body(d: DetailView) -> BodyView {
    table_or_remark(
        d.changes,
        "(clean working tree)"@,
        |c: FileChange| change_row(c),
        " changes "@,
        seq![head_shown("STAGED"@), head_shown("ST"@), head_shown("PATH"@)],
        seq![Width::Length(10), Width::Length(4), Width::Min(10)],
        d.changes_sel,
    )
}

fn draw_change(c: &FileChange) -> (row: Row)
    ensures
        lines_view(row@) == change_row(*c),
{
    let side = if c.staged {
        Span::tinted("staged", Color::Green)
    } else {
        Span::tinted("unstaged", Color::Yellow)
    };
    let row = vec![
        one(side),
        one(Span::new(c.status.short(), file_status_style(c.status).bold())),
        one(Span::new(c.path.as_str(), file_status_style(c.status))),
    ];
    assert(lines_view(row@) =~= change_row(*c));
    row
}

/// The tab of changed files.
pub fn draw_tab_changes(d: &Detail) -> (r: Body)
    ensures
        r@ == changes_body(d@),
{
    let changes = match &d.changes {
        Some(v) => v,
        None => {
            return remark(" changes ", "loading…");
        },
    };
    if changes.len() == 0 {
        return remark(" changes ", "(clean working tree)");
    }
    let ghost shows = |c: FileChange| change_row(c);
    let draw = |c: &FileChange| -> (row: Row)
        ensures
            lines_view(row@) == change_row(*c),
        { draw_change(c) };
    let rows = each_row(changes, draw, Ghost(shows));
    let header = vec![head("STAGED"), head("ST"), head("PATH")];
    assert(line_view(header@) =~= seq![
        head_shown("STAGED"@),
        head_shown("ST"@),
        head_shown("PATH"@),
    ]);
    let widths = vec![Width::Length(10), Width::Length(4), Width::Min(10)];
    assert(widths@ =~= seq![Width::Length(10), Width::Length(4), Width::Min(10)]);
    Body::Table(
        TableModel {
            title: text::copy(" changes "),
            header,
            widths,
            rows,
            selected: d.changes_sel,
            highlight: Style::plain().bg(Color::DarkGray),
        },
    )
}

/// The labels of a commit, with commas between them.
pub open spec fn labels_listed(refs: Seq<RefLabel>) -> Seq<SpanView>
    decreases refs.len(),
{
    if refs.len() == 0 {
        seq![]
    } else if refs.len() == 1 {
        seq![label_shown(refs[0])]
    } else {
        labels_listed(refs.drop_last()) + seq![gray(","@), label_shown(refs.last())]
    }
}

/// The day of a date: what stands before its time.
pub open spec fn day_of(date: Seq<char>) -> Seq<char> {
    match cut_first(date, 'T') {
        Some(c) => c.0,
        None => date,
    }
}

pub open spec fn commit_row(c: CommitInfo) -> Seq<Seq<SpanView>> {
    seq![
        seq![tinted(c.short_oid@, Color::Yellow)],
        seq![gray(day_of(c.date@))],
        seq![tinted(c.author@, Color::Cyan)],
        labels_listed(c.refs@),
        seq![bare(first_line_of(c.message@))],
    ]
}

pub open spec fn history_body(d: DetailView) -> BodyView {
    table_or_remark(
        d.commits,
        "(no commits)"@,
        |c: CommitInfo| commit_row(c),
        " history "@,
        seq![
            head_shown("SHA"@),
            head_shown("DATE"@),
            head_shown("AUTHOR"@),
            head_shown("REFS"@),
            head_shown("MESSAGE"@),
        ],
        seq![
            Width::Length(8),
            Width::Length(10),
            Width::Length(20),
            Width::Length(24),
            Width::Min(20),
        ],
        d.commits_sel,
    )
}

fn list_labels(refs: &Vec<RefLabel>) -> (r: Vec<Span>)
    ensures
        line_view(r@) == labels_listed(refs@),
{
    let mut out: Vec<Span> = Vec::new();
    let mut i: usize = 0;
    assert(refs@.take(0) =~= seq![]);
    assert(line_view(out@) =~= labels_listed(refs@.take(0)));
    while i < refs.len()
        invariant
            i <= refs@.len(),
            line_view(out@) == labels_listed(refs@.take(i as int)),
        decreases refs@.len() - i,
    {
        let ghost before = line_view(out@);
        assert(refs@.take(i + 1).drop_last() =~= refs@.take(i as int));
        if i > 0 {
            out.push(in_gray(","));
        }
        out.push(ref_span(&refs[i]));
        assert(line_view(out@) =~= labels_listed(refs@.take(i + 1)));
        i = i + 1;
    }
    assert(refs@.take(i as int) =~= refs@);
    out
}

fn draw_commit(c: &CommitInfo) -> (row: Row)
    ensures
        lines_view(row@) == commit_row(*c),
{
    let labels = list_labels(&c.refs);
    let first = text::first_line(c.message.as_str());
    let day = match text::split_once(c.date.as_str(), 'T') {
        Some((d, _)) => d,
        None => c.date.clone(),
    };
    let row = vec![
        one(Span::tinted(c.short_oid.as_str(), Color::Yellow)),
        one(in_gray(day.as_str())),
        one(Span::tinted(c.author.as_str(), Color::Cyan)),
        labels,
        one(Span::bare(first.as_str())),
    ];
    assert(lines_view(row@) =~= commit_row(*c));
    row
}

/// The tab of commits.
pub fn draw_tab_history(d: &Detail) -> (r: Body)
    ensures
        r@ == history_body(d@),
{
    let commits = match &d.commits {
        Some(v) => v,
        None => {
            return remark(" history ", "loading…");
        },
    };
    if commits.len() == 0 {
        return remark(" history ", "(no commits)");
    }
    let ghost shows = |c: CommitInfo| commit_row(c);
    let draw = |c: &CommitInfo| -> (row: Row)
        ensures
            lines_view(row@) == commit_row(*c),
        { draw_commit(c) };
    let rows = each_row(commits, draw, Ghost(shows));
    let header = vec![head("SHA"), head("DATE"), head("AUTHOR"), head("REFS"), head("MESSAGE")];
    assert(line_view(header@) =~= seq![
        head_shown("SHA"@),
        head_shown("DATE"@),
        head_shown("AUTHOR"@),
        head_shown("REFS"@),
        head_shown("MESSAGE"@),
    ]);
    let widths = vec![
        Width::Length(8),
        Width::Length(10),
        Width::Length(20),
        Width::Length(24),
        Width::Min(20),
    ];
    assert(widths@ =~= seq![
        Width::Length(8),
        Width::Length(10),
        Width::Length(20),
        Width::Length(24),
        Width::Min(20),
    ]);
    Body::Table(
        TableModel {
            title: text::copy(" history "),
            header,
            widths,
            rows,
            selected: d.commits_sel,
            highlight: Style::plain().bg(Color::DarkGray),
        },
    )
}

pub open spec fn branch_color(b: BranchInfo) -> Color {
    if b.is_head {
        Color::Green
    } else if b.is_remote {
        Color::Yellow
    } else {
        Color::Cyan
    }
}

pub open spec fn branch_kind(b: BranchInfo) -> Seq<char> {
    if b.is_head {
        "HEAD"@
    } else if b.is_remote {
        "remote"@
    } else {
        "local"@
    }
}

pub open spec fn branch_row(b: BranchInfo) -> Seq<Seq<SpanView>> {
    seq![
        seq![
            if b.is_head {
                shown("*"@, bold_in(Color::Green))
            } else {
                bare(" "@)
            },
        ],
        seq![tinted(branch_kind(b), branch_color(b))],
        seq![
            shown(
                b.name@,
                if b.is_head {
                    bold_in(branch_color(b))
                } else {
                    Style::plain().fg(branch_color(b))
                },
            ),
        ],
        seq![
            gray(
                match b.upstream {
                    Some(u) => u@,
                    None => ""@,
                },
            ),
        ],
    ]
}

pub open spec fn branches_body(d: DetailView) -> BodyView {
    table_or_remark(
        d.branches,
        "(no branches)"@,
        |b: BranchInfo| branch_row(b),
        " branches "@,
        seq![
            head_shown(""@),
            head_shown("KIND"@),
            head_shown("NAME"@),
            head_shown("UPSTREAM"@),
        ],
        seq![Width::Length(2), Width::Length(8), Width::Min(20), Width::Min(20)],
        d.branches_sel,
    )
}

fn draw_branch(b: &BranchInfo) -> (row: Row)
    ensures
        lines_view(row@) == branch_row(*b),
{
    let (kind, color) = if b.is_head {
        ("HEAD", Color::Green)
    } else if b.is_remote {
        ("remote", Color::Yellow)
    } else {
        ("local", Color::Cyan)
    };
    let marker = if b.is_head {
        Span::new("*", Style::plain().fg(Color::Green).bold())
    } else {
        Span::bare(" ")
    };
    let style = if b.is_head {
        Style::plain().fg(color).bold()
    } else {
        Style::plain().fg(color)
    };
    let upstream = match &b.upstream {
        Some(u) => u.as_str(),
        None => "",
    };
    let row = vec![
        one(marker),
        one(Span::tinted(kind, color)),
        one(Span::new(b.name.as_str(), style)),
        one(in_gray(upstream)),
    ];
    assert(lines_view(row@) =~= branch_row(*b));
    row
}

/// The tab of branches.
pub fn draw_tab_branches(d: &Detail) -> (r: Body)
    ensures
        r@ == branches_body(d@),
{
    let branches = match &d.branches {
        Some(v) => v,
        None => {
            return remark(" branches ", "loading…");
        },
    };
    if branches.len() == 0 {
        return remark(" branches ", "(no branches)");
    }
    let ghost shows = |b: BranchInfo| branch_row(b);
    let draw = |b: &BranchInfo| -> (row: Row)
        ensures
            lines_view(row@) == branch_row(*b),
        { draw_branch(b) };
    let rows = each_row(branches, draw, Ghost(shows));
    let header = vec![head(""), head("KIND"), head("NAME"), head("UPSTREAM")];
    assert(line_view(header@) =~= seq![
        head_shown(""@),
        head_shown("KIND"@),
        head_shown("NAME"@),
        head_shown("UPSTREAM"@),
    ]);
    let widths = vec![Width::Length(2), Width::Length(8), Width::Min(20), Width::Min(20)];
    assert(widths@ =~= seq![
        Width::Length(2),
        Width::Length(8),
        Width::Min(20),
        Width::Min(20),
    ]);
    Body::Table(
        TableModel {
            title: text::copy(" branches "),
            header,
            widths,
            rows,
            selected: d.branches_sel,
            highlight: Style::plain().bg(Color::DarkGray),
        },
    )
}

pub open spec fn stash_row(s: StashEntry) -> Seq<Seq<SpanView>> {
    seq![
        seq![tinted("stash@{"@ + decimal_of(s.index as nat) + "}"@, Color::Magenta)],
        seq![bare(s.message@)],
    ]
}

pub open spec fn stashes_body(d: DetailView) -> BodyView {
    table_or_remark(
        d.stashes,
        "(no stashes)"@,
        |s: StashEntry| stash_row(s),
        " stashes "@,
        seq![head_shown("REF"@), head_shown("MESSAGE"@)],
        seq![Width::Length(12), Width::Min(20)],
        d.stashes_sel,
    )
}

fn draw_stash(s: &StashEntry) -> (row: Row)
    ensures
        lines_view(row@) == stash_row(*s),
{
    let n = text::decimal(s.index as u64);
    let name = text::copy("stash@{").concat(n.as_str()).concat("}");
    let row = vec![
        one(Span::tinted(name.as_str(), Color::Magenta)),
        one(Span::bare(s.message.as_str())),
    ];
    assert(lines_view(row@) =~= stash_row(*s));
    row
}

/// The tab of stashes.
pub fn draw_tab_stashes(d: &Detail) -> (r: Body)
    ensures
        r@ == stashes_body(d@),
{
    let stashes = match &d.stashes {
        Some(v) => v,
        None => {
            return remark(" stashes ", "loading…");
        },
    };
    if stashes.len() == 0 {
        return remark(" stashes ", "(no stashes)");
    }
    let ghost shows = |s: StashEntry| stash_row(s);
    let draw = |s: &StashEntry| -> (row: Row)
        ensures
            lines_view(row@) == stash_row(*s),
        { draw_stash(s) };
    let rows = each_row(stashes, draw, Ghost(shows));
    let header = vec![head("REF"), head("MESSAGE")];
    assert(line_view(header@) =~= seq![head_shown("REF"@), head_shown("MESSAGE"@)]);
    let widths = vec![Width::Length(12), Width::Min(20)];
    assert(widths@ =~= seq![Width::Length(12), Width::Min(20)]);
    Body::Table(
        TableModel {
            title: text::copy(" stashes "),
            header,
            widths,
            rows,
            selected: d.stashes_sel,
            highlight: Style::plain().bg(Color::DarkGray),
        },
    )
}

pub open spec fn readme_body(d: DetailView) -> BodyView {
    BodyView::Page {
        title: " README "@,
        text: match d.readme {
            Some(s) => if s.len() == 0 {
                "(README is empty)"@
            } else {
                s
            },
            None => "loading…"@,
        },
        scroll: d.readme_scroll,
    }
}

/// The tab of the readme file.
pub fn draw_tab_readme(d: &Detail) -> (r: Body)
    ensures
        r@ == readme_body(d@),
{
    let body = match &d.readme {
        Some(s) => if text::length(s.as_str()) == 0 {
            text::copy("(README is empty)")
        } else {
            s.clone()
        },
        None => text::copy("loading…"),
    };
    Body::Page { title: text::copy(" README "), text: body, scroll: d.readme_scroll }
}

pub open spec fn tab_body(d: DetailView) -> BodyView {
    match d.tab {
        Tab::Changes => changes_body(d),
        Tab::History => history_body(d),
        Tab::Branches => branches_body(d),
        Tab::Stashes => stashes_body(d),
        Tab::Readme => readme_body(d),
    }
}

pub open spec fn tab_titles() -> Seq<Seq<char>> {
    seq![
        tab_title(Tab::Changes),
        tab_title(Tab::History),
        tab_title(Tab::Branches),
        tab_title(Tab::Stashes),
        tab_title(Tab::Readme),
    ]
}

/// A repository in detail: its summary, the tabs, and what the current tab
/// shows.
pub open spec fn detail_shown(a: AppView) -> MainView {
    match a.detail {
        Some(d) => if d.repo_index < a.repos.len() {
            MainView::Detail(
                DetailModelView {
                    summary: summary_shown(a.repos[d.repo_index as int]),
                    tabs: tab_titles(),
                    selected_tab: tab_index(d.tab),
                    body: tab_body(d),
                },
            )
        } else {
            MainView::Nothing
        },
        None => MainView::Nothing,
    }
}

/// A repository in detail.
pub fn draw_detail(app: &App) -> (r: Main)
    ensures
        r@ == detail_shown(app@),
{
    let d = match &app.detail {
        Some(d) => d,
        None => {
            return Main::Nothing;
        },
    };
    if d.repo_index >= app.repos.len() {
        return Main::Nothing;
    }
    let summary = draw_summary(&app.repos[d.repo_index]);
    let mut tabs: Vec<String> = Vec::new();
    tabs.push(text::copy(Tab::Changes.title()));
    tabs.push(text::copy(Tab::History.title()));
    tabs.push(text::copy(Tab::Branches.title()));
    tabs.push(text::copy(Tab::Stashes.title()));
    tabs.push(text::copy(Tab::Readme.title()));
    assert(texts(tabs@) =~= tab_titles());
    let body = match d.tab {
        Tab::Changes => draw_tab_changes(d),
        Tab::History => draw_tab_history(d),
        Tab::Branches => draw_tab_branches(d),
        Tab::Stashes => draw_tab_stashes(d),
        Tab::Readme => draw_tab_readme(d),
    };
    Main::Detail(DetailModel { summary, tabs, selected_tab: d.tab.index(), body })
}

// ── Help ─────────────────────────────────

pub open spec fn help_section(s: Seq<char>) -> Seq<SpanView> {
    seq![shown(s, Style::plain().bold())]
}

pub open spec fn help_line(s: Seq<char>) -> Seq<SpanView> {
    seq![bare(s)]
}

/// The keys and what they do.
pub open spec fn help_shown() -> Seq<Seq<SpanView>> {
    seq![
        seq![head_shown(" GitAtlas — keybindings "@)],
        help_line(""@),
        help_section("Dashboard"@),
        help_line("  ↑/k, ↓/j       move selection"@),
        help_line("  g / G          jump to top / bottom"@),
        help_line("  /              incremental search"@),
        help_line("  a              clear health filter (all)"@),
        help_line("  c/d/v/e        filter clean / dirty / diverged / error"@),
        help_line("  enter          open repo detail"@),
        help_line("  f / p / P      fetch / pull (rebase) / push selected"@),
        help_line("  F              fetch all repos (background)"@),
        help_line("  U              pull --rebase all repos (background)"@),
        help_line("  s              scan configured roots"@),
        help_line("  R              refresh selected repo status"@),
        help_line(""@),
        help_section("Detail"@),
        help_line("  ←/h, →/l       previous / next tab"@),
        help_line("  1–5            jump to tab"@),
        help_line("  ↑/k, ↓/j       move selection (or scroll README)"@),
        help_line("  f / p / P      fetch / pull / push this repo"@),
        help_line("  R              reload current tab"@),
        help_line("  esc            back to dashboard"@),
        help_line(""@),
        help_line("  q              quit   ?  toggle help"@),
    ]
}

fn section(s: &str) -> (r: Vec<Span>)
    ensures
        line_view(r@) == help_section(s@),
{
    one(Span::new(s, Style::plain().bold()))
}

fn explain(s: &str) -> (r: Vec<Span>)
    ensures
        line_view(r@) == help_line(s@),
{
    one(Span::bare(s))
}

/// The keys and what they do.
pub fn draw_help() -> (r: Vec<Vec<Span>>)
    ensures
        lines_view(r@) == help_shown(),
{
    let r = vec![
        one(head(" GitAtlas — keybindings ")),
        explain(""),
        section("Dashboard"),
        explain("  ↑/k, ↓/j       move selection"),
        explain("  g / G          jump to top / bottom"),
        explain("  /              incremental search"),
        explain("  a              clear health filter (all)"),
        explain("  c/d/v/e        filter clean / dirty / diverged / error"),
        explain("  enter          open repo detail"),
        explain("  f / p / P      fetch / pull (rebase) / push selected"),
        explain("  F              fetch all repos (background)"),
        explain("  U              pull --rebase all repos (background)"),
        explain("  s              scan configured roots"),
        explain("  R              refresh selected repo status"),
        explain(""),
        section("Detail"),
        explain("  ←/h, →/l       previous / next tab"),
        explain("  1–5            jump to tab"),
        explain("  ↑/k, ↓/j       move selection (or scroll README)"),
        explain("  f / p / P      fetch / pull / push this repo"),
        explain("  R              reload current tab"),
        explain("  esc            back to dashboard"),
        explain(""),
        explain("  q              quit   ?  toggle help"),
    ];
    assert(lines_view(r@) =~= help_shown());
    r
}

/// A part of the screen.
#[derive(Debug, Clone, Copy, PartialEq, Eq, Structural)]
pub struct Area {
    pub x: u16,
    pub y: u16,
    pub width: u16,
    pub height: u16,
}

/// The size of a box along one side, with at least four cells around it where
/// the side has them.
pub open spec fn fitted(size: u16, side: u16) -> int {
    let room: int = if side >= 4 {
        side - 4
    } else {
        0
    };
    if size <= room {
        size as int
    } else {
        room
    }
}

/// The space before a box that is centered along one side.
pub open spec fn margin(size: u16, side: u16) -> int {
    (side - fitted(size, side)) / 2
}

fn fit(size: u16, side: u16) -> (r: u16)
    ensures
        r == fitted(size, side),
        r <= side,
{
    let room: u16 = if side >= 4 {
        side - 4
    } else {
        0
    };
    if size <= room {
        size
    } else {
        room
    }
}

/// A box of the given size in the middle of an area, smaller where it does
/// not fit.
pub fn centered(width: u16, height: u16, area: Area) -> (r: Area)
    requires
        area.x + margin(width, area.width) <= u16::MAX,
        area.y + margin(height, area.height) <= u16::MAX,
    ensures
        r.width == fitted(width, area.width),
        r.height == fitted(height, area.height),
        r.x == area.x + margin(width, area.width),
        r.y == area.y + margin(height, area.height),
{
    let w = fit(width, area.width);
    let h = fit(height, area.height);
    Area {
        x: area.x + (area.width - w) / 2,
        y: area.y + (area.height - h) / 2,
        width: w,
        height: h,
    }
}

/// Whether the place of a centered box can be told.
pub fn margin_fits(width: u16, height: u16, area: Area) -> (r: bool)
    ensures
        r == (area.x + margin(width, area.width) <= u16::MAX && area.y + margin(
            height,
            area.height,
        ) <= u16::MAX),
{
    let w = fit(width, area.width);
    let h = fit(height, area.height);
    (area.width - w) / 2 <= u16::MAX - area.x && (area.height - h) / 2 <= u16::MAX - area.y
}

/// A centered box lies within its area.
pub proof fn centered_lies_within(size: u16, side: u16)
    ensures
        0 <= margin(size, side),
        margin(size, side) + fitted(size, side) <= side,
{
}

// ── Screen ───────────────────────────────

/// The state after it was drawn: the dashboard settles its selection, and the
/// current tab of a repository brings its own within its rows.
pub open spec fn drawn(a: AppView) -> AppView {
    if a.mode == Mode::Detail {
        match a.detail {
            Some(d) => if d.repo_index < a.repos.len() {
                AppView { detail: Some(d.tab_bounded()), ..a }
            } else {
                a
            },
            None => a,
        }
    } else {
        dash_settled(a)
    }
}

/// The whole screen.
pub open spec fn screen_shown(a: AppView, now: u64) -> ScreenView {
    ScreenView {
        title: title_shown(a),
        right: right_shown(a),
        main: if a.mode == Mode::Detail {
            detail_shown(a)
        } else {
            MainView::Dashboard(dashboard_shown(a))
        },
        help: if a.mode == Mode::Help {
            Some(help_shown())
        } else {
            None
        },
        status: status_shown(a, now),
    }
}

fn bound_detail(app: &mut App)
    requires
        old(app)@.mode == Mode::Detail,
    ensures
        final(app)@ == drawn(old(app)@),
{
    if let Some(mut d) = app.detail.take() {
        if d.repo_index < app.repos.len() {
            d.bound_tab();
        }
        app.detail = Some(d);
    }
}

/// The whole screen.
pub fn draw(app: &mut App, now: u64) -> (r: Screen)
    ensures
        final(app)@ == drawn(old(app)@),
        r@ == screen_shown(final(app)@, now),
{
    let main = match app.mode {
        Mode::Detail => {
            bound_detail(app);
            draw_detail(app)
        },
        _ => Main::Dashboard(draw_dashboard(app)),
    };
    let help = match app.mode {
        Mode::Help => Some(draw_help()),
        _ => None,
    };
    let (title, right) = draw_header(app);
    let status = draw_statusline(app, now);
    Screen { title, right, main, help, status }
}

} // verus!
