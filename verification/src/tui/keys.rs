//! What keys do.
use vstd::prelude::*;
use vstd::string::*;

use crate::models::RepoHealth;
use crate::text;
use crate::tui::app::{action_view, tab_at, tab_index, Action, ActionView, App, AppView, BulkOp,
    Detail, DetailView, Mode, SingleOp, Tab};

verus! {

#[derive(Debug, Clone, Copy, PartialEq, Eq, Structural)]
pub enum Key {
    Esc,
    Enter,
    Backspace,
    Up,
    Down,
    Left,
    Right,
    PageUp,
    PageDown,
    Char(char),
    Other,
}

#[derive(Debug, Clone, Copy, PartialEq, Eq, Structural)]
pub struct KeyPress {
    pub key: Key,
    pub ctrl: bool,
}

// ── Selections ───────────────────────────

/// A selection in a list, moved by some rows and kept within the list. Where
/// nothing was selected it moves from the first row.
pub open spec fn moved(sel: Option<usize>, len: int, delta: int) -> Option<usize> {
    if len == 0 {
        None
    } else {
        let from = match sel {
            Some(s) => s as int,
            None => 0,
        };
        let to = from + delta;
        Some(
            (if to < 0 {
                0
            } else if to >= len {
                len - 1
            } else {
                to
            }) as usize,
        )
    }
}

/// Moves a selection in a list of `len` rows.
pub fn move_sel(sel: Option<usize>, len: usize, delta: i32) -> (r: Option<usize>)
    ensures
        r == moved(sel, len as int, delta as int),
{
    if len == 0 {
        return None;
    }
    let from: usize = match sel {
        Some(s) => s,
        None => 0,
    };
    let last: usize = len - 1;
    if delta < 0 {
        let back: u64 = (-(delta as i64)) as u64;
        if (from as u64) < back {
            Some(0)
        } else {
            let to: usize = (from as u64 - back) as usize;
            if to > last {
                Some(last)
            } else {
                Some(to)
            }
        }
    } else {
        let on: u64 = delta as u64;
        if from >= last || on >= (last - from) as u64 {
            Some(last)
        } else {
            Some((from as u64 + on) as usize)
        }
    }
}

/// A moved selection is a row of the list.
pub proof fn moves_stay_in_the_list(sel: Option<usize>, len: int, delta: int)
    requires
        0 <= len <= usize::MAX,
    ensures
        match moved(sel, len, delta) {
            Some(s) => s < len,
            None => len == 0,
        },
{
}

/// Where a key moves a selection.
pub open spec fn navigated(key: Key, sel: Option<usize>, len: int) -> Option<usize> {
    match key {
        Key::Up => moved(sel, len, -1),
        Key::Down => moved(sel, len, 1),
        Key::PageUp => moved(sel, len, -10),
        Key::PageDown => moved(sel, len, 10),
        Key::Char(c) => if c == 'k' {
            moved(sel, len, -1)
        } else if c == 'j' {
            moved(sel, len, 1)
        } else if c == 'g' && len > 0 {
            Some(0)
        } else if c == 'G' && len > 0 {
            Some((len - 1) as usize)
        } else {
            sel
        },
        _ => sel,
    }
}

/// Moves a selection by a key.
pub fn nav_table(key: Key, sel: Option<usize>, len: usize) -> (r: Option<usize>)
    ensures
        r == navigated(key, sel, len as int),
{
    match key {
        Key::Up => move_sel(sel, len, -1),
        Key::Down => move_sel(sel, len, 1),
        Key::PageUp => move_sel(sel, len, -10),
        Key::PageDown => move_sel(sel, len, 10),
        Key::Char(c) => if c == 'k' {
            move_sel(sel, len, -1)
        } else if c == 'j' {
            move_sel(sel, len, 1)
        } else if c == 'g' && len > 0 {
            Some(0)
        } else if c == 'G' && len > 0 {
            Some(len - 1)
        } else {
            sel
        },
        _ => sel,
    }
}

/// The selection of the dashboard, brought within its rows: the last row for
/// one beyond it, and the first row where none is selected.
pub open spec fn settled(sel: Option<usize>, len: int) -> Option<usize> {
    if len == 0 {
        None
    } else {
        match sel {
            Some(s) => if s >= len {
                Some((len - 1) as usize)
            } else {
                Some(s)
            },
            None => Some(0),
        }
    }
}

/// The selection of a tab, brought within its rows: the last row for one
/// beyond it. Where there are no rows, nothing is drawn and it stays.
pub open spec fn bounded(sel: Option<usize>, len: int) -> Option<usize> {
    match sel {
        Some(s) => if len > 0 && s >= len {
            Some((len - 1) as usize)
        } else {
            sel
        },
        None => None,
    }
}

/// Brings the selection of a tab within its rows.
pub fn bound(sel: Option<usize>, len: usize) -> (r: Option<usize>)
    ensures
        r == bounded(sel, len as int),
{
    match sel {
        Some(s) => if len > 0 && s >= len {
            Some(len - 1)
        } else {
            sel
        },
        None => None,
    }
}

/// Brings the selection of the dashboard within its rows.
pub fn settle(sel: Option<usize>, len: usize) -> (r: Option<usize>)
    ensures
        r == settled(sel, len as int),
{
    if len == 0 {
        None
    } else {
        match sel {
            Some(s) => if s >= len {
                Some(len - 1)
            } else {
                Some(s)
            },
            None => Some(0),
        }
    }
}

// ── Keys ─────────────────────────────────

pub open spec fn scrolled(key: Key, scroll: u16) -> u16 {
    let by: int = if key == Key::Up || key == Key::Char('k') {
        -1
    } else if key == Key::Down || key == Key::Char('j') {
        1
    } else if key == Key::PageUp {
        -10
    } else if key == Key::PageDown {
        10
    } else {
        0
    };
    if key == Key::Char('g') || scroll + by < 0 {
        0
    } else if scroll + by > u16::MAX {
        u16::MAX
    } else {
        (scroll + by) as u16
    }
}

impl DetailView {
    pub open spec fn with_tab(self, tab: Tab) -> DetailView {
        DetailView { tab, ..self }
    }

    /// Moves in the current tab.
    pub open spec fn moved_by(self, key: Key) -> DetailView {
        match self.tab {
            Tab::Changes => DetailView {
                changes_sel: navigated(key, self.changes_sel, rows_in(self.changes)),
                ..self
            },
            Tab::History => DetailView {
                commits_sel: navigated(key, self.commits_sel, rows_in(self.commits)),
                ..self
            },
            Tab::Branches => DetailView {
                branches_sel: navigated(key, self.branches_sel, rows_in(self.branches)),
                ..self
            },
            Tab::Stashes => DetailView {
                stashes_sel: navigated(key, self.stashes_sel, rows_in(self.stashes)),
                ..self
            },
            Tab::Readme => DetailView {
                readme_scroll: scrolled(key, self.readme_scroll),
                ..self
            },
        }
    }

    /// The selection of the current tab is brought within its rows.
    pub open spec fn tab_bounded(self) -> DetailView {
        match self.tab {
            Tab::Changes => DetailView {
                changes_sel: bounded(self.changes_sel, rows_in(self.changes)),
                ..self
            },
            Tab::History => DetailView {
                commits_sel: bounded(self.commits_sel, rows_in(self.commits)),
                ..self
            },
            Tab::Branches => DetailView {
                branches_sel: bounded(self.branches_sel, rows_in(self.branches)),
                ..self
            },
            Tab::Stashes => DetailView {
                stashes_sel: bounded(self.stashes_sel, rows_in(self.stashes)),
                ..self
            },
            Tab::Readme => self,
        }
    }
}

pub open spec fn rows_in<T>(v: Option<Seq<T>>) -> int {
    match v {
        Some(s) => s.len() as int,
        None => 0,
    }
}

impl AppView {
    pub open spec fn search_key(self, key: Key) -> AppView {
        match key {
            Key::Esc => AppView { search: seq![], mode: self.prev_mode, ..self },
            Key::Enter => AppView { mode: self.prev_mode, ..self },
            Key::Backspace => AppView {
                search: if self.search.len() == 0 {
                    self.search
                } else {
                    self.search.drop_last()
                },
                ..self
            },
            Key::Char(c) => AppView { search: self.search.push(c), ..self },
            _ => self,
        }
    }

    pub open spec fn help_key(self, key: Key) -> AppView {
        if key == Key::Esc || key == Key::Char('?') || key == Key::Char('q') {
            AppView { mode: self.prev_mode, ..self }
        } else {
            self
        }
    }

    /// The place of the selected repository.
    pub open spec fn selected(self) -> Option<usize> {
        match self.dash_sel {
            Some(s) => if s < self.filtered().len() {
                Some(self.filtered()[s as int])
            } else {
                None
            },
            None => None,
        }
    }

    pub open spec fn selected_path(self) -> Option<Seq<char>> {
        match self.selected() {
            Some(i) => if i < self.repos.len() {
                Some(self.repos[i as int].path@)
            } else {
                None
            },
            None => None,
        }
    }

    pub open spec fn single_on_selected(self, op: SingleOp, now: u64) -> (
        AppView,
        Option<ActionView>,
    ) {
        match self.selected_path() {
            Some(p) => self.starting_single(p, op, now),
            None => (self, None),
        }
    }

    pub open spec fn opening(self) -> (AppView, Option<ActionView>) {
        match self.selected() {
            Some(i) => {
                let open = AppView {
                    detail: Some(DetailView::fresh(i)),
                    mode: Mode::Detail,
                    ..self
                };
                (open, open.tab_to_load())
            },
            None => (self, None),
        }
    }

    pub open spec fn with_filter(self, h: Option<RepoHealth>) -> AppView {
        AppView { filter_health: h, ..self }
    }

    pub open spec fn dashboard_char(self, c: char, now: u64) -> (AppView, Option<ActionView>) {
        if c == 'q' {
            (AppView { should_quit: true, ..self }, None)
        } else if c == '?' {
            (AppView { prev_mode: Mode::Dashboard, mode: Mode::Help, ..self }, None)
        } else if c == '/' {
            (
                AppView {
                    prev_mode: Mode::Dashboard,
                    search: seq![],
                    mode: Mode::Search,
                    ..self
                },
                None,
            )
        } else if c == 'a' {
            (self.with_filter(None), None)
        } else if c == 'c' {
            (self.with_filter(Some(RepoHealth::Clean)), None)
        } else if c == 'd' {
            (self.with_filter(Some(RepoHealth::Dirty)), None)
        } else if c == 'v' {
            (self.with_filter(Some(RepoHealth::Diverged)), None)
        } else if c == 'e' {
            (self.with_filter(Some(RepoHealth::Error)), None)
        } else if c == 'f' {
            self.single_on_selected(SingleOp::Fetch, now)
        } else if c == 'p' {
            self.single_on_selected(SingleOp::Pull, now)
        } else if c == 'P' {
            self.single_on_selected(SingleOp::Push, now)
        } else if c == 'F' {
            self.starting_bulk(BulkOp::Fetch, now)
        } else if c == 'U' {
            self.starting_bulk(BulkOp::Pull, now)
        } else if c == 'R' {
            (
                self,
                match self.selected_path() {
                    Some(p) => Some(ActionView::Refresh(p)),
                    None => None,
                },
            )
        } else if c == 's' {
            (self, Some(ActionView::ReadRoots))
        } else {
            (self.dashboard_moved(Key::Char(c)), None)
        }
    }

    pub open spec fn dashboard_moved(self, key: Key) -> AppView {
        AppView {
            dash_sel: navigated(key, self.dash_sel, self.filtered().len() as int),
            ..self
        }
    }

    pub open spec fn dashboard_key(self, key: Key, now: u64) -> (AppView, Option<ActionView>) {
        match key {
            Key::Char(c) => self.dashboard_char(c, now),
            Key::Enter => self.opening(),
            _ => (self.dashboard_moved(key), None),
        }
    }

    /// The tab that a key leads to.
    pub open spec fn tab_for(self, key: Key) -> Option<Tab> {
        match self.detail {
            Some(d) => if key == Key::Right || key == Key::Char('l') {
                Some(tab_at((tab_index(d.tab) + 1) % 5))
            } else if key == Key::Left || key == Key::Char('h') {
                Some(tab_at((tab_index(d.tab) + 4) % 5))
            } else {
                match key {
                    Key::Char(c) => if '1' <= c <= '5' {
                        Some(tab_at(c as int - '1' as int))
                    } else {
                        None
                    },
                    _ => None,
                }
            },
            None => None,
        }
    }

    /// The repository that is shown in detail is worked on.
    pub open spec fn single_on_shown(self, key: Key, now: u64) -> (AppView, Option<ActionView>) {
        match self.detail {
            Some(d) => if d.repo_index < self.repos.len() {
                let path = self.repos[d.repo_index as int].path@;
                if key == Key::Char('f') {
                    self.starting_single(path, SingleOp::Fetch, now)
                } else if key == Key::Char('p') {
                    self.starting_single(path, SingleOp::Pull, now)
                } else if key == Key::Char('P') {
                    self.starting_single(path, SingleOp::Push, now)
                } else {
                    (self, None)
                }
            } else {
                (self, None)
            },
            None => (self, None),
        }
    }

    pub open spec fn detail_key(self, key: Key, now: u64) -> (AppView, Option<ActionView>) {
        if key == Key::Esc {
            (AppView { mode: Mode::Dashboard, ..self }, None)
        } else if key == Key::Char('q') {
            (AppView { should_quit: true, ..self }, None)
        } else if key == Key::Char('?') {
            (AppView { prev_mode: Mode::Detail, mode: Mode::Help, ..self }, None)
        } else {
            match self.detail {
                None => (self, None),
                Some(d) => match self.tab_for(key) {
                    Some(tab) => {
                        let there = AppView { detail: Some(d.with_tab(tab)), ..self };
                        (there, there.tab_to_load())
                    },
                    None => if key == Key::Char('R') {
                        let bare = AppView { detail: Some(d.invalidated()), ..self };
                        (bare, bare.tab_to_load())
                    } else {
                        AppView { detail: Some(d.moved_by(key)), ..self }.single_on_shown(key, now)
                    },
                },
            }
        }
    }

    /// What a key leads to.
    pub open spec fn pressed(self, press: KeyPress, now: u64) -> (AppView, Option<ActionView>) {
        if press.key == Key::Char('c') && press.ctrl {
            (AppView { should_quit: true, ..self }, None)
        } else {
            match self.mode {
                Mode::Search => (self.search_key(press.key), None),
                Mode::Help => (self.help_key(press.key), None),
                Mode::Dashboard => self.dashboard_key(press.key, now),
                Mode::Detail => self.detail_key(press.key, now),
            }
        }
    }
}

fn scroll_by(key: Key, scroll: u16) -> (r: u16)
    ensures
        r == scrolled(key, scroll),
{
    match key {
        Key::Up | Key::Char('k') => if scroll >= 1 {
            scroll - 1
        } else {
            0
        },
        Key::Down | Key::Char('j') => if scroll < u16::MAX {
            scroll + 1
        } else {
            u16::MAX
        },
        Key::PageUp => if scroll >= 10 {
            scroll - 10
        } else {
            0
        },
        Key::PageDown => if scroll <= u16::MAX - 10 {
            scroll + 10
        } else {
            u16::MAX
        },
        Key::Char('g') => 0,
        _ => scroll,
    }
}

fn list_len<T>(v: &Option<Vec<T>>) -> (r: usize)
    ensures
        r == rows_in(crate::tui::app::opt_seq(*v)),
{
    match v {
        Some(x) => x.len(),
        None => 0,
    }
}

impl Detail {
    /// Moves in the current tab.
    pub fn navigate(&mut self, key: Key)
        ensures
            final(self)@ == old(self)@.moved_by(key),
    {
        match self.tab {
            Tab::Changes => {
                self.changes_sel = nav_table(key, self.changes_sel, list_len(&self.changes));
            },
            Tab::History => {
                self.commits_sel = nav_table(key, self.commits_sel, list_len(&self.commits));
            },
            Tab::Branches => {
                self.branches_sel = nav_table(key, self.branches_sel, list_len(&self.branches));
            },
            Tab::Stashes => {
                self.stashes_sel = nav_table(key, self.stashes_sel, list_len(&self.stashes));
            },
            Tab::Readme => {
                self.readme_scroll = scroll_by(key, self.readme_scroll);
            },
        }
    }

    /// Brings the selection of the current tab within its rows.
    pub fn bound_tab(&mut self)
        ensures
            final(self)@ == old(self)@.tab_bounded(),
    {
        match self.tab {
            Tab::Changes => {
                self.changes_sel = bound(self.changes_sel, list_len(&self.changes));
            },
            Tab::History => {
                self.commits_sel = bound(self.commits_sel, list_len(&self.commits));
            },
            Tab::Branches => {
                self.branches_sel = bound(self.branches_sel, list_len(&self.branches));
            },
            Tab::Stashes => {
                self.stashes_sel = bound(self.stashes_sel, list_len(&self.stashes));
            },
            Tab::Readme => {},
        }
    }
}

impl App {
    fn clear_search(&mut self)
        ensures
            final(self)@ == (AppView { search: seq![], ..old(self)@ }),
    {
        let empty = String::new();
        assert(empty@ =~= seq![]);
        self.search = empty;
    }

    pub fn handle_search_key(&mut self, key: Key)
        ensures
            final(self)@ == old(self)@.search_key(key),
    {
        match key {
            Key::Esc => {
                self.clear_search();
                self.mode = self.prev_mode;
            },
            Key::Enter => {
                self.mode = self.prev_mode;
            },
            Key::Backspace => {
                let n = text::length(self.search.as_str());
                if n > 0 {
                    let shorter = text::part(self.search.as_str(), 0, n - 1);
                    assert(shorter@ =~= self.search@.drop_last());
                    self.search = shorter;
                }
            },
            Key::Char(c) => {
                self.search.push(c);
            },
            _ => {},
        }
    }

    pub fn handle_help_key(&mut self, key: Key)
        ensures
            final(self)@ == old(self)@.help_key(key),
    {
        match key {
            Key::Esc | Key::Char('?') | Key::Char('q') => {
                self.mode = self.prev_mode;
            },
            _ => {},
        }
    }

    /// The place of the selected repository.
    pub fn selected(&self) -> (r: Option<usize>)
        ensures
            r == self@.selected(),
            match r {
                Some(i) => i < self.repos@.len(),
                None => true,
            },
    {
        let indices = self.filtered();
        match self.dash_sel {
            Some(s) => if s < indices.len() {
                Some(indices[s])
            } else {
                None
            },
            None => None,
        }
    }

    /// The path of the selected repository.
    pub fn selected_path(&self) -> (r: Option<String>)
        ensures
            text::opt_view(r) == self@.selected_path(),
    {
        match self.selected() {
            Some(i) => Some(self.repos[i].path.clone()),
            None => None,
        }
    }

    fn start_selected(&mut self, op: SingleOp, now: u64) -> (r: Option<Action>)
        ensures
            (final(self)@, action_view(r)) == old(self)@.single_on_selected(op, now),
    {
        match self.selected_path() {
            Some(p) => self.start_single(p.as_str(), op, now),
            None => None,
        }
    }

    fn move_dashboard(&mut self, key: Key)
        ensures
            final(self)@ == old(self)@.dashboard_moved(key),
    {
        let indices = self.filtered();
        self.dash_sel = nav_table(key, self.dash_sel, indices.len());
    }

    fn handle_dashboard_char(&mut self, c: char, now: u64) -> (r: Option<Action>)
        ensures
            (final(self)@, action_view(r)) == old(self)@.dashboard_char(c, now),
    {
        match c {
            'q' => {
                self.should_quit = true;
                None
            },
            '?' => {
                self.prev_mode = Mode::Dashboard;
                self.mode = Mode::Help;
                None
            },
            '/' => {
                self.prev_mode = Mode::Dashboard;
                self.clear_search();
                self.mode = Mode::Search;
                None
            },
            'a' => {
                self.filter_health = None;
                None
            },
            'c' => {
                self.filter_health = Some(RepoHealth::Clean);
                None
            },
            'd' => {
                self.filter_health = Some(RepoHealth::Dirty);
                None
            },
            'v' => {
                self.filter_health = Some(RepoHealth::Diverged);
                None
            },
            'e' => {
                self.filter_health = Some(RepoHealth::Error);
                None
            },
            'f' => self.start_selected(SingleOp::Fetch, now),
            'p' => self.start_selected(SingleOp::Pull, now),
            'P' => self.start_selected(SingleOp::Push, now),
            'F' => self.start_bulk(BulkOp::Fetch, now),
            'U' => self.start_bulk(BulkOp::Pull, now),
            'R' => match self.selected_path() {
                Some(p) => Some(Action::Refresh(p)),
                None => None,
            },
            's' => Some(Action::ReadRoots),
            _ => {
                self.move_dashboard(Key::Char(c));
                None
            },
        }
    }

    pub fn handle_dashboard_key(&mut self, key: Key, now: u64) -> (r: Option<Action>)
        ensures
            (final(self)@, action_view(r)) == old(self)@.dashboard_key(key, now),
    {
        match key {
            Key::Char(c) => self.handle_dashboard_char(c, now),
            Key::Enter => match self.selected() {
                Some(i) => {
                    self.detail = Some(Detail::new(i));
                    self.mode = Mode::Detail;
                    self.load_current_tab()
                },
                None => None,
            },
            _ => {
                self.move_dashboard(key);
                None
            },
        }
    }

    fn tab_for(&self, key: Key) -> (r: Option<Tab>)
        ensures
            r == self@.tab_for(key),
    {
        match &self.detail {
            Some(d) => match key {
                Key::Right | Key::Char('l') => Some(d.tab.next()),
                Key::Left | Key::Char('h') => Some(d.tab.prev()),
                Key::Char(c) => if '1' <= c && c <= '5' {
                    Some(Tab::at((c as u32 - '1' as u32) as usize))
                } else {
                    None
                },
                _ => None,
            },
            None => None,
        }
    }

    fn start_shown(&mut self, key: Key, now: u64) -> (r: Option<Action>)
        ensures
            (final(self)@, action_view(r)) == old(self)@.single_on_shown(key, now),
    {
        let path = match &self.detail {
            Some(d) => if d.repo_index < self.repos.len() {
                self.repos[d.repo_index].path.clone()
            } else {
                return None;
            },
            None => {
                return None;
            },
        };
        match key {
            Key::Char('f') => self.start_single(path.as_str(), SingleOp::Fetch, now),
            Key::Char('p') => self.start_single(path.as_str(), SingleOp::Pull, now),
            Key::Char('P') => self.start_single(path.as_str(), SingleOp::Push, now),
            _ => None,
        }
    }

    pub fn handle_detail_key(&mut self, key: Key, now: u64) -> (r: Option<Action>)
        ensures
            (final(self)@, action_view(r)) == old(self)@.detail_key(key, now),
    {
        match key {
            Key::Esc => {
                self.mode = Mode::Dashboard;
                return None;
            },
            Key::Char('q') => {
                self.should_quit = true;
                return None;
            },
            Key::Char('?') => {
                self.prev_mode = Mode::Detail;
                self.mode = Mode::Help;
                return None;
            },
            _ => {},
        }
        let tab = self.tab_for(key);
        let mut detail = match self.detail.take() {
            Some(d) => d,
            None => {
                return None;
            },
        };
        match tab {
            Some(t) => {
                detail.tab = t;
                self.detail = Some(detail);
                self.load_current_tab()
            },
            None => if key == Key::Char('R') {
                detail.invalidate();
                self.detail = Some(detail);
                self.load_current_tab()
            } else {
                detail.navigate(key);
                self.detail = Some(detail);
                self.start_shown(key, now)
            },
        }
    }

    /// Goes on after a key.
    pub fn handle_key(&mut self, press: KeyPress, now: u64) -> (r: Option<Action>)
        ensures
            (final(self)@, action_view(r)) == old(self)@.pressed(press, now),
    {
        if press.key == Key::Char('c') && press.ctrl {
            self.should_quit = true;
            return None;
        }
        match self.mode {
            Mode::Search => {
                self.handle_search_key(press.key);
                None
            },
            Mode::Help => {
                self.handle_help_key(press.key);
                None
            },
            Mode::Dashboard => self.handle_dashboard_key(press.key, now),
            Mode::Detail => self.handle_detail_key(press.key, now),
        }
    }
}

// ── Laws ─────────────────────────────────

/// Control and `c` quits from anywhere, and changes nothing else.
pub proof fn control_c_quits(a: AppView, now: u64)
    ensures
        a.pressed(KeyPress { key: Key::Char('c'), ctrl: true }, now) == (
            AppView { should_quit: true, ..a },
            None::<ActionView>,
        ),
{
}

/// No key changes the repositories.
pub proof fn keys_keep_the_list(a: AppView, press: KeyPress, now: u64)
    ensures
        a.pressed(press, now).0.repos == a.repos,
{
}

/// No key leads to two operations at once.
pub proof fn keys_start_one_operation(a: AppView, press: KeyPress, now: u64)
    requires
        !(a.single is Some && a.bulk is Some),
    ensures
        !(a.pressed(press, now).0.single is Some && a.pressed(press, now).0.bulk is Some),
{
}

/// Escape leads back from help, search and detail, and a search that is left
/// with it is dropped.
pub proof fn escape_leads_back(a: AppView, now: u64)
    ensures
        ({
            let b = a.pressed(KeyPress { key: Key::Esc, ctrl: false }, now).0;
            &&& a.mode == Mode::Help ==> b.mode == a.prev_mode
            &&& a.mode == Mode::Search ==> b.mode == a.prev_mode && b.search.len() == 0
            &&& a.mode == Mode::Detail ==> b.mode == Mode::Dashboard
        }),
{
}

/// Opening help and closing it again changes nothing but what is remembered
/// of the mode before.
pub proof fn help_comes_and_goes(a: AppView, now: u64)
    requires
        a.mode == Mode::Dashboard || a.mode == Mode::Detail,
    ensures
        ({
            let key = KeyPress { key: Key::Char('?'), ctrl: false };
            let b = a.pressed(key, now).0;
            &&& b.mode == Mode::Help
            &&& b.pressed(key, now).0 == AppView { prev_mode: a.mode, ..a }
        }),
{
}

/// A character that is typed into a search and deleted again leaves it as it
/// was.
pub proof fn typing_can_be_undone(a: AppView, c: char, now: u64)
    requires
        a.mode == Mode::Search,
    ensures
        a.search_key(Key::Char(c)).search_key(Key::Backspace) == a,
{
    assert(a.search.push(c).drop_last() =~= a.search);
}

/// The selection of the dashboard, once settled, is one of its rows, and
/// settling it again changes nothing.
pub proof fn selection_settles_in_range(sel: Option<usize>, len: int)
    requires
        0 <= len <= usize::MAX,
    ensures
        match settled(sel, len) {
            Some(s) => s < len,
            None => len == 0,
        },
        settled(settled(sel, len), len) == settled(sel, len),
{
}

/// The selection of a tab with rows, once brought within them, is one of them
/// where there is one, and bringing it within them again changes nothing.
pub proof fn tab_selection_is_a_row(sel: Option<usize>, len: int)
    requires
        0 < len <= usize::MAX,
    ensures
        match bounded(sel, len) {
            Some(s) => s < len,
            None => sel is None,
        },
        bounded(bounded(sel, len), len) == bounded(sel, len),
{
}

} // verus!
