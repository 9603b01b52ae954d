//! The commits, files, branches and remotes of one repository.
use vstd::prelude::*;
use vstd::string::*;
use vstd::utf8::encode_utf8;

use crate::error::{AppError, AppErrorView, AppResult};
use crate::git::remote_url::{normalize_remote_url, web_address};
use crate::git::ssh_config::opt_str_view;
use crate::models::{BranchInfo, BranchView, CommitFileChange, CommitInfo, CommitView, FileChange,
    FileStatus, GitProfile, RefKind, RefLabel, RemoteInfo};
use crate::models::{commits_view, labels_view};
use crate::order;
use crate::order::{orders, stably_sorted};
use crate::paths;
use crate::paths::joined_path;
use crate::text;
use crate::text::{at_most, has_text, opt_view, text_in, text_le, texts, trimmed};

verus! {

/// What an operation gave: its value, or the error it ended with.
pub open spec fn outcome(r: AppResult<String>) -> Result<Seq<char>, AppErrorView> {
    match r {
        Ok(s) => Ok(s@),
        Err(e) => Err(e@),
    }
}

/// An error of the library's own.
pub open spec fn refused<T>(s: Seq<char>) -> Result<T, AppErrorView> {
    Err(AppErrorView::General(s))
}

pub open spec fn text_or(s: Option<String>, default: Seq<char>) -> Seq<char> {
    match s {
        Some(t) => t@,
        None => default,
    }
}

fn or_text(s: Option<String>, default: &str) -> (r: String)
    ensures
        r@ == text_or(s, default@),
{
    match s {
        Some(t) => t,
        None => text::copy(default),
    }
}

// ── Object ids ───────────────────────────

pub open spec fn is_hex(c: char) -> bool {
    '0' <= c <= '9' || 'a' <= c <= 'f' || 'A' <= c <= 'F'
}

/// A text that names an object: up to 40 hexadecimal digits.
pub open spec fn is_id_text(s: Seq<char>) -> bool {
    0 < s.len() <= 40 && forall|i: int| 0 <= i < s.len() ==> is_hex(#[trigger] s[i])
}

/// An id in full: lower case, with zeros for the digits that are missing.
pub open spec fn full_id(s: Seq<char>) -> Seq<char> {
    text::ascii_lowercase(s) + Seq::new((40 - s.len()) as nat, |i: int| '0')
}

/// What is said of a text that names no object. How long a text may be is
/// counted in bytes.
pub open spec fn id_error(s: Seq<char>) -> Seq<char> {
    let why = if s.len() == 0 {
        "too short"@
    } else if encode_utf8(s).len() > 40 {
        "too long"@
    } else {
        "contains invalid characters"@
    };
    "unable to parse OID - "@ + why + "; class=Invalid (3)"@
}

/// `git2::Oid::from_str`, and the id written out in full: a text is an id
/// where it has up to 40 digits, all of them hexadecimal. Of another text it
/// says that it is too short, too long or holds other characters, in that
/// order, with the class of the error.
#[verifier::external_body]
fn oid_from_str(s: &str) -> (r: Result<String, String>)
    ensures
        r is Ok <==> is_id_text(s@),
        match r {
            Ok(id) => id@ == full_id(s@),
            Err(e) => e@ == id_error(s@),
        },
{
    match git2::Oid::from_str(s) {
        Ok(id) => Ok(id.to_string()),
        Err(e) => Err(e.to_string()),
    }
}

/// The object that a text names, or the error that ends the operation.
pub open spec fn named_object(s: Seq<char>) -> Result<Seq<char>, AppErrorView> {
    if is_id_text(s) {
        Ok(full_id(s))
    } else {
        Err(AppErrorView::Git(id_error(s)))
    }
}

/// The id of the commit that a text names.
pub fn commit_id(s: &str) -> (r: AppResult<String>)
    ensures
        outcome(r) == named_object(s@),
{
    match oid_from_str(s) {
        Ok(id) => Ok(id),
        Err(e) => Err(AppError::Git(e)),
    }
}

// ── Commits ──────────────────────────────

/// A commit as it was read.
pub struct RawCommit {
    pub oid: String,
    pub message: Option<String>,
    pub author: Option<String>,
    pub email: Option<String>,
    pub seconds: i64,
    pub parents: Vec<String>,
}

/// The date of a time in seconds, where there is one.
pub uninterp spec fn utc_date(seconds: i64) -> Option<Seq<char>>;

/// `chrono::DateTime::from_timestamp` with no nanoseconds, and what
/// `to_rfc3339` writes of it: both depend on the seconds alone.
#[verifier::external_body]
fn date_of(seconds: i64) -> (r: Option<String>)
    ensures
        opt_view(r) == utc_date(seconds),
{
    match chrono::DateTime::from_timestamp(seconds, 0) {
        Some(t) => Some(t.to_rfc3339()),
        None => None,
    }
}

/// The first digits of an id.
pub open spec fn short_id(oid: Seq<char>) -> Seq<char> {
    at_most(oid, 7)
}

/// A label on the commit with the given id.
pub struct RefEntry {
    pub oid: String,
    pub label: RefLabel,
}

impl View for RefEntry {
    type V = (Seq<char>, (Seq<char>, RefKind));

    open spec fn view(&self) -> (Seq<char>, (Seq<char>, RefKind)) {
        (self.oid@, self.label@)
    }
}

pub open spec fn entries_view(v: Seq<RefEntry>) -> Seq<(Seq<char>, (Seq<char>, RefKind))> {
    v.map_values(|e: RefEntry| e@)
}

/// The labels on one commit, in the order in which they were found.
pub open spec fn labels_on(
    entries: Seq<(Seq<char>, (Seq<char>, RefKind))>,
    oid: Seq<char>,
) -> Seq<(Seq<char>, RefKind)>
    decreases entries.len(),
{
    if entries.len() == 0 {
        seq![]
    } else {
        let so_far = labels_on(entries.drop_last(), oid);
        if entries.last().0 == oid {
            so_far.push(entries.last().1)
        } else {
            so_far
        }
    }
}

/// The labels on one commit.
pub fn labels_of(entries: &Vec<RefEntry>, oid: &str) -> (r: Vec<RefLabel>)
    ensures
        labels_view(r@) == labels_on(entries_view(entries@), oid@),
{
    let ghost all = entries_view(entries@);
    let mut out: Vec<RefLabel> = Vec::new();
    let mut i: usize = 0;
    assert(all.take(0) =~= seq![]);
    assert(labels_view(out@) =~= seq![]);
    while i < entries.len()
        invariant
            all == entries_view(entries@),
            i <= entries@.len(),
            labels_view(out@) == labels_on(all.take(i as int), oid@),
        decreases entries@.len() - i,
    {
        assert(all.take(i + 1).drop_last() =~= all.take(i as int));
        assert(all.take(i + 1).last() == entries@[i as int]@);
        if text::same(entries[i].oid.as_str(), oid) {
            let ghost before = labels_view(out@);
            let label = entries[i].label.clone();
            out.push(label);
            assert(labels_view(out@) =~= before.push(label@));
        }
        i = i + 1;
    }
    assert(all.take(i as int) =~= all);
    out
}

/// What is shown of a commit.
pub open spec fn commit_shown(
    raw: RawCommit,
    entries: Seq<(Seq<char>, (Seq<char>, RefKind))>,
) -> CommitView {
    dated_commit(raw, utc_date(raw.seconds), entries)
}

/// What is shown of a commit with the given date.
pub open spec fn dated_commit(
    raw: RawCommit,
    date: Option<Seq<char>>,
    entries: Seq<(Seq<char>, (Seq<char>, RefKind))>,
) -> CommitView {
    CommitView {
        oid: raw.oid@,
        short_oid: short_id(raw.oid@),
        message: trimmed(text_or(raw.message, ""@)),
        author: text_or(raw.author, "Unknown"@),
        author_email: text_or(raw.email, ""@),
        date: match date {
            Some(d) => d,
            None => ""@,
        },
        parents: texts(raw.parents@).map_values(|p: Seq<char>| short_id(p)),
        refs: labels_on(entries, raw.oid@),
    }
}

/// What is shown of a commit.
pub fn commit_info(raw: RawCommit, entries: &Vec<RefEntry>) -> (r: CommitInfo)
    ensures
        r@ == commit_shown(raw, entries_view(entries@)),
{
    let date = date_of(raw.seconds);
    commit_with_date(raw, date, entries)
}

/// What is shown of a commit with the given date.
pub fn commit_with_date(raw: RawCommit, date: Option<String>, entries: &Vec<RefEntry>) -> (r:
    CommitInfo)
    ensures
        r@ == dated_commit(raw, opt_view(date), entries_view(entries@)),
{
    let short_oid = text::cut_to(raw.oid.as_str(), 7);
    let refs = labels_of(entries, raw.oid.as_str());
    let mut parents: Vec<String> = Vec::new();
    let ghost want = texts(raw.parents@).map_values(|p: Seq<char>| short_id(p));
    let mut i: usize = 0;
    assert(texts(parents@) =~= want.take(0));
    while i < raw.parents.len()
        invariant
            want == texts(raw.parents@).map_values(|p: Seq<char>| short_id(p)),
            i <= raw.parents@.len(),
            texts(parents@) == want.take(i as int),
        decreases raw.parents@.len() - i,
    {
        let p = text::cut_to(raw.parents[i].as_str(), 7);
        proof {
            text::texts_push(parents@, p);
            assert(texts(raw.parents@)[i as int] == raw.parents@[i as int]@);
            assert(want.take(i + 1) =~= want.take(i as int).push(want[i as int]));
        }
        parents.push(p);
        i = i + 1;
    }
    assert(want.take(i as int) =~= want);
    let message = or_text(raw.message, "");
    CommitInfo {
        oid: raw.oid,
        short_oid,
        message: text::trim(message.as_str()),
        author: or_text(raw.author, "Unknown"),
        author_email: or_text(raw.email, ""),
        date: or_text(date, ""),
        parents,
        refs,
    }
}

/// The first `count` commits of a walk, newest first, as they are shown.
pub fn get_commit_log(walked: Vec<RawCommit>, entries: &Vec<RefEntry>, count: usize) -> (r: Vec<
    CommitInfo,
>)
    ensures
        commits_view(r@) == (if walked@.len() <= count {
            walked@
        } else {
            walked@.take(count as int)
        }).map_values(|c: RawCommit| commit_shown(c, entries_view(entries@))),
{
    let mut kept = walked;
    kept.truncate(count);
    let ghost all = kept@;
    assert(all =~= if walked@.len() <= count {
        walked@
    } else {
        walked@.take(count as int)
    });
    let ghost shows = |c: RawCommit| commit_shown(c, entries_view(entries@));
    let mut out: Vec<CommitInfo> = Vec::new();
    assert(commits_view(out@) =~= all.take(0).map_values(shows));
    for raw in it: kept.into_iter()
        invariant
            it.seq() == all,
            shows == (|c: RawCommit| commit_shown(c, entries_view(entries@))),
            commits_view(out@) == all.take(it.index() as int).map_values(shows),
    {
        let ghost k = it.index() as int;
        let ghost before = commits_view(out@);
        let c = commit_info(raw, entries);
        out.push(c);
        assert(commits_view(out@) =~= before.push(c@));
        assert(all.take(k + 1).map_values(shows) =~= all.take(k).map_values(shows).push(
            shows(all[k]),
        ));
    }
    assert(all.take(all.len() as int) =~= all);
    out
}

// ── Labels ───────────────────────────────

/// A branch as it was read.
pub struct RawBranch {
    /// Its name, where it has one that is a text.
    pub name: Option<String>,
    pub remote: bool,
    /// The id of the commit that it leads to, where it leads to one.
    pub target: Option<String>,
    /// The name of the branch that it follows, if any.
    pub upstream: Option<String>,
}

/// A tag as it was read.
pub struct RawTag {
    pub name: String,
    /// The id of the commit that it leads to, where it leads to one.
    pub target: Option<String>,
}

/// The label of a branch, on the commit that it leads to. The branch that
/// HEAD names is the head, where HEAD is on the same commit.
pub open spec fn branch_label(
    b: RawBranch,
    head_oid: Option<Seq<char>>,
    head_name: Option<Seq<char>>,
) -> Option<(Seq<char>, (Seq<char>, RefKind))> {
    match (b.name, b.target) {
        (Some(name), Some(oid)) => Some(
            (
                oid@,
                (
                    name@,
                    if head_oid == Some(oid@) && head_name == Some(name@) {
                        RefKind::Head
                    } else if b.remote {
                        RefKind::Remote
                    } else {
                        RefKind::Local
                    },
                ),
            ),
        ),
        _ => None,
    }
}

pub open spec fn tag_label(t: RawTag) -> Option<(Seq<char>, (Seq<char>, RefKind))> {
    match t.target {
        Some(oid) => Some((oid@, (t.name@, RefKind::Tag))),
        None => None,
    }
}

/// The labels of branches and then tags; those that lead to no commit have
/// none.
pub open spec fn all_labels(
    head_oid: Option<Seq<char>>,
    head_name: Option<Seq<char>>,
    branches: Seq<RawBranch>,
    tags: Seq<RawTag>,
) -> Seq<(Seq<char>, (Seq<char>, RefKind))> {
    branches.filter_map(|b: RawBranch| branch_label(b, head_oid, head_name)) + tags.filter_map(
        |t: RawTag| tag_label(t),
    )
}

fn is_text(a: Option<&str>, b: &str) -> (r: bool)
    ensures
        r == (opt_str_view(a) == Some(b@)),
{
    match a {
        Some(s) => text::same(s, b),
        None => false,
    }
}

/// The labels on the commits of a repository.
pub fn build_ref_map(
    head_oid: Option<&str>,
    head_name: Option<&str>,
    branches: &Vec<RawBranch>,
    tags: &Vec<RawTag>,
) -> (r: Vec<RefEntry>)
    ensures
        entries_view(r@) == all_labels(
            opt_str_view(head_oid),
            opt_str_view(head_name),
            branches@,
            tags@,
        ),
{
    let ghost f = |b: RawBranch|
        branch_label(b, opt_str_view(head_oid), opt_str_view(head_name));
    let ghost g = |t: RawTag| tag_label(t);
    let mut out: Vec<RefEntry> = Vec::new();
    let mut i: usize = 0;
    assert(branches@.take(0) =~= seq![]);
    assert(entries_view(out@) =~= branches@.take(0).filter_map(f)) by {
        reveal(Seq::filter_map);
    }
    while i < branches.len()
        invariant
            f == (|b: RawBranch|
                branch_label(b, opt_str_view(head_oid), opt_str_view(head_name))),
            i <= branches@.len(),
            entries_view(out@) == branches@.take(i as int).filter_map(f),
        decreases branches@.len() - i,
    {
        let ghost before = entries_view(out@);
        assert(branches@.take(i + 1).drop_last() =~= branches@.take(i as int));
        proof {
            reveal(Seq::filter_map);
        }
        if let (Some(name), Some(oid)) = (&branches[i].name, &branches[i].target) {
            let kind = if is_text(head_oid, oid.as_str()) && is_text(head_name, name.as_str()) {
                RefKind::Head
            } else if branches[i].remote {
                RefKind::Remote
            } else {
                RefKind::Local
            };
            let e = RefEntry { oid: oid.clone(), label: RefLabel { name: name.clone(), kind } };
            out.push(e);
            assert(entries_view(out@) =~= before + seq![e@]);
        }
        i = i + 1;
    }
    assert(branches@.take(i as int) =~= branches@);
    let ghost first = entries_view(out@);
    let mut j: usize = 0;
    assert(tags@.take(0) =~= seq![]);
    assert(entries_view(out@) =~= first + tags@.take(0).filter_map(g)) by {
        reveal(Seq::filter_map);
    }
    while j < tags.len()
        invariant
            g == (|t: RawTag| tag_label(t)),
            j <= tags@.len(),
            entries_view(out@) == first + tags@.take(j as int).filter_map(g),
        decreases tags@.len() - j,
    {
        let ghost before = entries_view(out@);
        assert(tags@.take(j + 1).drop_last() =~= tags@.take(j as int));
        proof {
            reveal(Seq::filter_map);
        }
        if let Some(oid) = &tags[j].target {
            let e = RefEntry {
                oid: oid.clone(),
                label: RefLabel { name: tags[j].name.clone(), kind: RefKind::Tag },
            };
            out.push(e);
            assert(entries_view(out@) =~= before + seq![e@]);
        }
        assert(entries_view(out@) =~= first + tags@.take(j + 1).filter_map(g));
        j = j + 1;
    }
    assert(tags@.take(j as int) =~= tags@);
    out
}

// ── File history ─────────────────────────

/// What a file holds in some commits.
pub open spec fn blobs_view(v: Seq<Option<String>>) -> Seq<Option<Seq<char>>> {
    v.map_values(|b: Option<String>| opt_view(b))
}

/// A commit touches a file where the file is in it what it is in none of the
/// parents. Before a commit without parents there was no file.
pub open spec fn touches(blob: Option<Seq<char>>, parents: Seq<Option<Seq<char>>>) -> bool {
    if parents.len() == 0 {
        blob is Some
    } else {
        !parents.contains(blob)
    }
}

/// A walk through the commits of a branch, newest first, that keeps those
/// that touch one file.
pub struct FileHistory {
    pub count: usize,
    pub commits: Vec<CommitInfo>,
    pub over: bool,
}

pub struct FileHistoryView {
    pub count: usize,
    pub commits: Seq<CommitView>,
    pub over: bool,
}

impl View for FileHistory {
    type V = FileHistoryView;

    open spec fn view(&self) -> FileHistoryView {
        FileHistoryView {
            count: self.count,
            commits: commits_view(self.commits@),
            over: self.over,
        }
    }
}

impl FileHistoryView {
    pub open spec fn fresh(count: usize) -> FileHistoryView {
        FileHistoryView { count, commits: seq![], over: count == 0 }
    }

    /// A commit is kept where it touches the file, until there are enough.
    pub open spec fn visited(
        self,
        commit: CommitView,
        blob: Option<Seq<char>>,
        parents: Seq<Option<Seq<char>>>,
    ) -> FileHistoryView {
        if touches(blob, parents) {
            let commits = self.commits.push(commit);
            FileHistoryView { commits, over: commits.len() >= self.count, ..self }
        } else {
            self
        }
    }
}

/// Starts a walk that keeps up to `count` commits.
pub fn get_file_history(count: usize) -> (r: FileHistory)
    ensures
        r@ == FileHistoryView::fresh(count),
{
    let commits: Vec<CommitInfo> = Vec::new();
    assert(commits_view(commits@) =~= seq![]);
    FileHistory { count, commits, over: count == 0 }
}

fn same_option(a: &Option<String>, b: &Option<String>) -> (r: bool)
    ensures
        r == (opt_view(*a) == opt_view(*b)),
{
    match (a, b) {
        (Some(x), Some(y)) => text::same(x.as_str(), y.as_str()),
        (None, None) => true,
        _ => false,
    }
}

/// Whether a commit touches a file, by the ids of what the file holds in it
/// and in its parents.
pub fn touches_file(blob: &Option<String>, parents: &Vec<Option<String>>) -> (r: bool)
    ensures
        r == touches(opt_view(*blob), blobs_view(parents@)),
{
    if parents.len() == 0 {
        return blob.is_some();
    }
    let ghost held = blobs_view(parents@);
    let mut i: usize = 0;
    while i < parents.len()
        invariant
            held == blobs_view(parents@),
            i <= parents@.len(),
            forall|j: int| 0 <= j < i ==> #[trigger] held[j] != opt_view(*blob),
        decreases parents@.len() - i,
    {
        assert(held[i as int] == opt_view(parents@[i as int]));
        if same_option(&parents[i], blob) {
            return false;
        }
        i = i + 1;
    }
    true
}

impl FileHistory {
    /// Visits the next commit; `blob` is the id of what the file holds in it,
    /// and `parents` are those of what it holds in each of its parents.
    pub fn visit(
        &mut self,
        raw: RawCommit,
        blob: Option<String>,
        parents: &Vec<Option<String>>,
        entries: &Vec<RefEntry>,
    )
        requires
            !old(self).over,
        ensures
            final(self)@ == old(self)@.visited(
                commit_shown(raw, entries_view(entries@)),
                opt_view(blob),
                blobs_view(parents@),
            ),
    {
        if touches_file(&blob, parents) {
            let c = commit_info(raw, entries);
            let ghost before = commits_view(self.commits@);
            self.commits.push(c);
            assert(commits_view(self.commits@) =~= before.push(c@));
            self.over = self.commits.len() >= self.count;
        }
    }
}

/// A commit that a walk comes by, with what the file holds in it and in each
/// of its parents.
pub struct Visited {
    pub commit: CommitView,
    pub blob: Option<Seq<char>>,
    pub parents: Seq<Option<Seq<char>>>,
}

/// The walk after some commits.
pub open spec fn history_after(h: FileHistoryView, walk: Seq<Visited>) -> FileHistoryView
    decreases walk.len(),
{
    if walk.len() == 0 {
        h
    } else {
        let before = history_after(h, walk.drop_last());
        let v = walk.last();
        if before.over {
            before
        } else {
            before.visited(v.commit, v.blob, v.parents)
        }
    }
}

/// Those of some commits that touch the file.
pub open spec fn touching(walk: Seq<Visited>) -> Seq<CommitView> {
    walk.filter(|v: Visited| touches(v.blob, v.parents)).map_values(|v: Visited| v.commit)
}

/// At most the first `count` of some commits.
pub open spec fn first_commits(v: Seq<CommitView>, count: usize) -> Seq<CommitView> {
    if v.len() <= count {
        v
    } else {
        v.take(count as int)
    }
}

/// The history of a file is the first of the commits that touch it, as many
/// as were asked for, in the order of the walk.
pub proof fn history_is_what_touches_the_file(count: usize, walk: Seq<Visited>)
    ensures
        history_after(FileHistoryView::fresh(count), walk).commits == first_commits(
            touching(walk),
            count,
        ),
        history_after(FileHistoryView::fresh(count), walk).over <==> touching(walk).len() >= count,
    decreases walk.len(),
{
    reveal(Seq::filter);
    if walk.len() > 0 {
        let rest = walk.drop_last();
        history_is_what_touches_the_file(count, rest);
        let before = touching(rest);
        let v = walk.last();
        if touches(v.blob, v.parents) {
            assert(touching(walk) =~= before.push(v.commit));
        } else {
            assert(touching(walk) =~= before);
        }
        history_keeps_its_count(count, rest);
        if before.len() >= count {
            assert(first_commits(touching(walk), count) =~= first_commits(before, count));
        }
    } else {
        assert(touching(walk) =~= seq![]);
    }
}

proof fn history_keeps_its_count(count: usize, walk: Seq<Visited>)
    ensures
        history_after(FileHistoryView::fresh(count), walk).count == count,
    decreases walk.len(),
{
    if walk.len() > 0 {
        history_keeps_its_count(count, walk.drop_last());
    }
}

/// A file that is in none of the commits has no history.
pub proof fn absent_file_has_no_history(count: usize, walk: Seq<Visited>)
    requires
        forall|i: int| 0 <= i < walk.len() ==> (#[trigger] walk[i]).blob is None,
        forall|i: int, j: int|
            0 <= i < walk.len() && 0 <= j < walk[i].parents.len() ==> (
            #[trigger] walk[i].parents[j]) is None,
    ensures
        history_after(FileHistoryView::fresh(count), walk).commits.len() == 0,
{
    history_is_what_touches_the_file(count, walk);
    nothing_touches(walk);
}

proof fn nothing_touches(walk: Seq<Visited>)
    requires
        forall|i: int| 0 <= i < walk.len() ==> (#[trigger] walk[i]).blob is None,
        forall|i: int, j: int|
            0 <= i < walk.len() && 0 <= j < walk[i].parents.len() ==> (
            #[trigger] walk[i].parents[j]) is None,
    ensures
        touching(walk).len() == 0,
    decreases walk.len(),
{
    reveal(Seq::filter);
    if walk.len() > 0 {
        let rest = walk.drop_last();
        assert forall|i: int, j: int|
            0 <= i < rest.len() && 0 <= j < rest[i].parents.len() implies (
        #[trigger] rest[i].parents[j]) is None by {
            assert(walk[i].parents[j] is None);
        }
        nothing_touches(rest);
        let v = walk.last();
        if v.parents.len() > 0 {
            assert(v.parents[0] is None);
        }
    }
}

/// In a history where each commit has the next older one as its only parent,
/// a commit touches the file where the next older one holds something else
/// in its place, and the oldest where it holds the file.
pub proof fn neighbours_tell_in_a_straight_history(blob: Option<Seq<char>>, older: Option<Seq<char>>)
    ensures
        touches(blob, seq![older]) <==> blob != older,
        touches(blob, seq![]) <==> blob is Some,
{
    assert(seq![older][0] == older);
}

// ── File changes ─────────────────────────

/// What git says of a file, in the index and in the working tree.
#[derive(Debug, Clone, Copy, PartialEq, Eq, Structural)]
pub struct StatusFlags {
    pub index_new: bool,
    pub index_modified: bool,
    pub index_deleted: bool,
    pub index_renamed: bool,
    pub wt_new: bool,
    pub wt_modified: bool,
    pub wt_deleted: bool,
    pub wt_renamed: bool,
    pub conflicted: bool,
}

/// A file and what git says of it.
pub struct StatusEntry {
    pub path: Option<String>,
    pub flags: StatusFlags,
}

/// The status of a file in the index, where it has one.
pub open spec fn index_status(s: StatusFlags) -> Option<FileStatus> {
    if s.index_new {
        Some(FileStatus::Added)
    } else if s.index_modified {
        Some(FileStatus::Modified)
    } else if s.index_deleted {
        Some(FileStatus::Deleted)
    } else if s.index_renamed {
        Some(FileStatus::Renamed)
    } else if s.conflicted {
        Some(FileStatus::Conflicted)
    } else {
        None
    }
}

/// The status of a file in the working tree, where it has one.
pub open spec fn workdir_status(s: StatusFlags) -> Option<FileStatus> {
    if s.wt_new {
        Some(FileStatus::Untracked)
    } else if s.wt_modified {
        Some(FileStatus::Modified)
    } else if s.wt_deleted {
        Some(FileStatus::Deleted)
    } else if s.wt_renamed {
        Some(FileStatus::Renamed)
    } else if s.conflicted {
        Some(FileStatus::Conflicted)
    } else {
        None
    }
}

/// The status of a file in the index.
pub fn index_status_to_file_status(s: StatusFlags) -> (r: Option<FileStatus>)
    ensures
        r == index_status(s),
{
    if s.index_new {
        Some(FileStatus::Added)
    } else if s.index_modified {
        Some(FileStatus::Modified)
    } else if s.index_deleted {
        Some(FileStatus::Deleted)
    } else if s.index_renamed {
        Some(FileStatus::Renamed)
    } else if s.conflicted {
        Some(FileStatus::Conflicted)
    } else {
        None
    }
}

/// The status of a file in the working tree.
pub fn workdir_status_to_file_status(s: StatusFlags) -> (r: Option<FileStatus>)
    ensures
        r == workdir_status(s),
{
    if s.wt_new {
        Some(FileStatus::Untracked)
    } else if s.wt_modified {
        Some(FileStatus::Modified)
    } else if s.wt_deleted {
        Some(FileStatus::Deleted)
    } else if s.wt_renamed {
        Some(FileStatus::Renamed)
    } else if s.conflicted {
        Some(FileStatus::Conflicted)
    } else {
        None
    }
}

/// What is shown of a file, on the given side, where it has a status there.
pub open spec fn change_shown(e: StatusEntry, staged: bool) -> Option<(
    Seq<char>,
    FileStatus,
    bool,
)> {
    match if staged {
        index_status(e.flags)
    } else {
        workdir_status(e.flags)
    } {
        Some(status) => Some((text_or(e.path, ""@), status, staged)),
        None => None,
    }
}

pub open spec fn changes_view(v: Seq<FileChange>) -> Seq<(Seq<char>, FileStatus, bool)> {
    v.map_values(|c: FileChange| c@)
}

fn side_changes(entries: &Vec<StatusEntry>, staged: bool, before: Vec<FileChange>) -> (r: Vec<
    FileChange,
>)
    ensures
        changes_view(r@) == changes_view(before@) + entries@.filter_map(
            |e: StatusEntry| change_shown(e, staged),
        ),
{
    let ghost f = |e: StatusEntry| change_shown(e, staged);
    let ghost first = changes_view(before@);
    let mut out = before;
    let mut i: usize = 0;
    assert(entries@.take(0) =~= seq![]);
    assert(changes_view(out@) =~= first + entries@.take(0).filter_map(f)) by {
        reveal(Seq::filter_map);
    }
    while i < entries.len()
        invariant
            f == (|e: StatusEntry| change_shown(e, staged)),
            i <= entries@.len(),
            changes_view(out@) == first + entries@.take(i as int).filter_map(f),
        decreases entries@.len() - i,
    {
        let ghost so_far = changes_view(out@);
        assert(entries@.take(i + 1).drop_last() =~= entries@.take(i as int));
        proof {
            reveal(Seq::filter_map);
        }
        let status = if staged {
            index_status_to_file_status(entries[i].flags)
        } else {
            workdir_status_to_file_status(entries[i].flags)
        };
        if let Some(status) = status {
            let path = match &entries[i].path {
                Some(p) => p.clone(),
                None => text::copy(""),
            };
            let c = FileChange { path, status, staged };
            out.push(c);
            assert(changes_view(out@) =~= so_far + seq![c@]);
        }
        assert(changes_view(out@) =~= first + entries@.take(i + 1).filter_map(f));
        i = i + 1;
    }
    assert(entries@.take(i as int) =~= entries@);
    out
}

/// The changes in the index, then those in the working tree.
pub fn get_file_changes(index: &Vec<StatusEntry>, workdir: &Vec<StatusEntry>) -> (r: Vec<
    FileChange,
>)
    ensures
        changes_view(r@) == index@.filter_map(|e: StatusEntry| change_shown(e, true))
            + workdir@.filter_map(|e: StatusEntry| change_shown(e, false)),
{
    let none: Vec<FileChange> = Vec::new();
    assert(changes_view(none@) =~= seq![]);
    let staged = side_changes(index, true, none);
    assert(changes_view(staged@) =~= index@.filter_map(|e: StatusEntry| change_shown(e, true)));
    side_changes(workdir, false, staged)
}

// ── Diffs ────────────────────────────────

/// A line of a patch.
pub struct PatchLine {
    pub origin: char,
    pub content: Vec<u8>,
}

/// A line as it stands in a patch: added, removed and unchanged lines start
/// with their mark. Content that is no text is left out.
pub open spec fn patch_line(l: PatchLine) -> Seq<char> {
    let mark = if l.origin == '+' || l.origin == '-' || l.origin == ' ' {
        seq![l.origin]
    } else {
        seq![]
    };
    match text_in(l.content@) {
        Some(s) => mark + s,
        None => mark,
    }
}

pub open spec fn patch_text(lines: Seq<PatchLine>) -> Seq<char>
    decreases lines.len(),
{
    if lines.len() == 0 {
        seq![]
    } else {
        patch_text(lines.drop_last()) + patch_line(lines.last())
    }
}

/// A patch as one text: the diff of the whole working tree or index.
pub fn get_workdir_diff(lines: &Vec<PatchLine>) -> (r: String)
    ensures
        r@ == patch_text(lines@),
{
    let mut out = String::new();
    let mut i: usize = 0;
    assert(lines@.take(0) =~= seq![]);
    while i < lines.len()
        invariant
            i <= lines@.len(),
            out@ == patch_text(lines@.take(i as int)),
        decreases lines@.len() - i,
    {
        let ghost before = out@;
        assert(lines@.take(i + 1).drop_last() =~= lines@.take(i as int));
        let origin = lines[i].origin;
        if origin == '+' || origin == '-' || origin == ' ' {
            out.push(origin);
        }
        let ghost marked = out@;
        if let Some(s) = text::utf8_text(&lines[i].content) {
            out.append(s.as_str());
        }
        assert(out@ =~= before + patch_line(lines@[i as int]));
        i = i + 1;
    }
    assert(lines@.take(i as int) =~= lines@);
    out
}

pub open spec fn or_note(s: Seq<char>, note: Seq<char>) -> Seq<char> {
    if s.len() == 0 {
        note
    } else {
        s
    }
}

/// The diff of one file.
pub fn get_file_diff(lines: &Vec<PatchLine>) -> (r: String)
    ensures
        r@ == or_note(patch_text(lines@), "(no diff available)"@),
{
    let s = get_workdir_diff(lines);
    if text::length(s.as_str()) == 0 {
        text::copy("(no diff available)")
    } else {
        s
    }
}

/// The diff of a commit.
pub fn get_commit_diff(lines: &Vec<PatchLine>) -> (r: String)
    ensures
        r@ == or_note(patch_text(lines@), "(empty commit)"@),
{
    let s = get_workdir_diff(lines);
    if text::length(s.as_str()) == 0 {
        text::copy("(empty commit)")
    } else {
        s
    }
}

/// What happened to a file in a commit.
#[derive(Debug, Clone, Copy, PartialEq, Eq, Structural)]
pub enum DeltaKind {
    Added,
    Deleted,
    Modified,
    Renamed,
    Copied,
    Other,
}

/// A file of a commit, by its paths after and before.
pub struct CommitDelta {
    pub kind: DeltaKind,
    pub new_path: Option<String>,
    pub old_path: Option<String>,
}

pub open spec fn delta_text(k: DeltaKind) -> Seq<char> {
    match k {
        DeltaKind::Added => "added"@,
        DeltaKind::Deleted => "deleted"@,
        DeltaKind::Modified => "modified"@,
        DeltaKind::Renamed => "renamed"@,
        DeltaKind::Copied => "copied"@,
        DeltaKind::Other => "modified"@,
    }
}

pub open spec fn delta_shown(d: CommitDelta) -> (Seq<char>, Seq<char>) {
    (
        match d.new_path {
            Some(p) => p@,
            None => text_or(d.old_path, ""@),
        },
        delta_text(d.kind),
    )
}

pub open spec fn files_view(v: Seq<CommitFileChange>) -> Seq<(Seq<char>, Seq<char>)> {
    v.map_values(|f: CommitFileChange| f@)
}

/// The files of a commit.
pub fn get_commit_files(deltas: &Vec<CommitDelta>) -> (r: Vec<CommitFileChange>)
    ensures
        files_view(r@) == deltas@.map_values(|d: CommitDelta| delta_shown(d)),
{
    let ghost want = deltas@.map_values(|d: CommitDelta| delta_shown(d));
    let mut out: Vec<CommitFileChange> = Vec::new();
    let mut i: usize = 0;
    assert(files_view(out@) =~= want.take(0));
    while i < deltas.len()
        invariant
            want == deltas@.map_values(|d: CommitDelta| delta_shown(d)),
            i <= deltas@.len(),
            files_view(out@) == want.take(i as int),
        decreases deltas@.len() - i,
    {
        let status = match deltas[i].kind {
            DeltaKind::Added => "added",
            DeltaKind::Deleted => "deleted",
            DeltaKind::Modified => "modified",
            DeltaKind::Renamed => "renamed",
            DeltaKind::Copied => "copied",
            DeltaKind::Other => "modified",
        };
        let path = match &deltas[i].new_path {
            Some(p) => p.clone(),
            None => match &deltas[i].old_path {
                Some(p) => p.clone(),
                None => text::copy(""),
            },
        };
        let ghost before = files_view(out@);
        let f = CommitFileChange { path, status: text::copy(status) };
        assert(f@ == delta_shown(deltas@[i as int]));
        out.push(f);
        assert(files_view(out@) =~= before.push(f@));
        assert(want.take(i + 1) =~= want.take(i as int).push(want[i as int]));
        i = i + 1;
    }
    assert(want.take(i as int) =~= want);
    out
}

// ── Staging ──────────────────────────────

/// An edit of the index.
pub enum IndexEdit {
    Add(String),
    Remove(String),
}

pub enum IndexEditView {
    Add(Seq<char>),
    Remove(Seq<char>),
}

impl View for IndexEdit {
    type V = IndexEditView;

    open spec fn view(&self) -> IndexEditView {
        match self {
            IndexEdit::Add(p) => IndexEditView::Add(p@),
            IndexEdit::Remove(p) => IndexEditView::Remove(p@),
        }
    }
}

pub open spec fn edits_view(v: Seq<IndexEdit>) -> Seq<IndexEditView> {
    v.map_values(|e: IndexEdit| e@)
}

/// Where a file of a repository stands.
pub fn file_in_repo(root: &str, file: &str) -> (r: String)
    ensures
        r@ == joined_path(root@, file@),
{
    paths::join(root, file)
}

/// Staging adds the files that exist and removes those that do not.
pub open spec fn staging(files: Seq<Seq<char>>, exist: Seq<bool>) -> Seq<IndexEditView> {
    Seq::new(
        files.len(),
        |i: int|
            if exist[i] {
                IndexEditView::Add(files[i])
            } else {
                IndexEditView::Remove(files[i])
            },
    )
}

/// The edits that stage some files; `exist` says of each whether it exists.
pub fn stage_files(files: &Vec<String>, exist: &Vec<bool>) -> (r: Vec<IndexEdit>)
    requires
        exist@.len() == files@.len(),
    ensures
        edits_view(r@) == staging(texts(files@), exist@),
{
    let ghost want = staging(texts(files@), exist@);
    let mut out: Vec<IndexEdit> = Vec::new();
    let mut i: usize = 0;
    assert(edits_view(out@) =~= want.take(0));
    while i < files.len()
        invariant
            want == staging(texts(files@), exist@),
            exist@.len() == files@.len(),
            i <= files@.len(),
            edits_view(out@) == want.take(i as int),
        decreases files@.len() - i,
    {
        let ghost before = edits_view(out@);
        let e = if exist[i] {
            IndexEdit::Add(files[i].clone())
        } else {
            IndexEdit::Remove(files[i].clone())
        };
        assert(texts(files@)[i as int] == files@[i as int]@);
        out.push(e);
        assert(edits_view(out@) =~= before.push(e@));
        assert(want.take(i + 1) =~= want.take(i as int).push(want[i as int]));
        i = i + 1;
    }
    assert(want.take(i as int) =~= want);
    out
}

/// How changes leave the index.
#[derive(Debug, Clone, Copy, PartialEq, Eq, Structural)]
pub enum Unstaging {
    /// Reset the files to what HEAD holds.
    ResetToHead,
    /// Take the files out: there is no commit to go back to.
    Remove,
}

/// How some or all changes leave the index; `has_head` says whether there is
/// a commit to go back to.
pub fn unstaging(has_head: bool) -> (r: Unstaging)
    ensures
        r == if has_head {
            Unstaging::ResetToHead
        } else {
            Unstaging::Remove
        },
{
    if has_head {
        Unstaging::ResetToHead
    } else {
        Unstaging::Remove
    }
}

// ── Branches ─────────────────────────────

/// What is shown of a branch, where it has a name.
pub open spec fn branch_shown(b: RawBranch, head_name: Option<Seq<char>>) -> Option<BranchView> {
    match b.name {
        Some(n) => Some(
            BranchView {
                name: n@,
                is_head: head_name == Some(n@),
                is_remote: b.remote,
                upstream: opt_view(b.upstream),
            },
        ),
        None => None,
    }
}

pub open spec fn branches_view(v: Seq<BranchInfo>) -> Seq<BranchView> {
    v.map_values(|b: BranchInfo| b@)
}

/// The head comes first, then local branches, then remote ones, each by name.
pub open spec fn branch_le(a: BranchView, b: BranchView) -> bool {
    if a.is_head != b.is_head {
        a.is_head
    } else if a.is_remote != b.is_remote {
        b.is_remote
    } else {
        text_le(a.name, b.name)
    }
}

pub open spec fn branch_order() -> spec_fn(BranchView, BranchView) -> bool {
    |a: BranchView, b: BranchView| branch_le(a, b)
}

proof fn branch_order_orders()
    ensures
        orders(branch_order()),
{
    let le = branch_order();
    assert forall|a: BranchView, b: BranchView| #[trigger] le(a, b) || le(b, a) by {
        text::text_le_total(a.name, b.name);
    }
    assert forall|a: BranchView, b: BranchView, c: BranchView| #[trigger]
        le(a, b) && #[trigger] le(b, c) implies le(a, c) by {
        if text_le(a.name, b.name) && text_le(b.name, c.name) {
            text::text_le_transitive(a.name, b.name, c.name);
        }
    }
}

/// The branches that have a name, as they are found.
fn named_branches(raw: &Vec<RawBranch>, head_name: Option<&str>) -> (r: Vec<BranchInfo>)
    ensures
        branches_view(r@) == raw@.filter_map(
            |b: RawBranch| branch_shown(b, opt_str_view(head_name)),
        ),
{
    let ghost f = |b: RawBranch| branch_shown(b, opt_str_view(head_name));
    let mut out: Vec<BranchInfo> = Vec::new();
    let mut i: usize = 0;
    assert(raw@.take(0) =~= seq![]);
    assert(branches_view(out@) =~= raw@.take(0).filter_map(f)) by {
        reveal(Seq::filter_map);
    }
    while i < raw.len()
        invariant
            f == (|b: RawBranch| branch_shown(b, opt_str_view(head_name))),
            i <= raw@.len(),
            branches_view(out@) == raw@.take(i as int).filter_map(f),
        decreases raw@.len() - i,
    {
        let ghost before = branches_view(out@);
        assert(raw@.take(i + 1).drop_last() =~= raw@.take(i as int));
        proof {
            reveal(Seq::filter_map);
        }
        if let Some(name) = &raw[i].name {
            let upstream = match &raw[i].upstream {
                Some(u) => Some(u.clone()),
                None => None,
            };
            let b = BranchInfo {
                name: name.clone(),
                is_head: is_text(head_name, name.as_str()),
                is_remote: raw[i].remote,
                upstream,
            };
            out.push(b);
            assert(branches_view(out@) =~= before + seq![b@]);
        }
        i = i + 1;
    }
    assert(raw@.take(i as int) =~= raw@);
    out
}

/// The branches of a repository: the head first, then local branches, then
/// remote ones, each by name. Branches without a name are left out.
pub fn get_branches(raw: &Vec<RawBranch>, head_name: Option<&str>) -> (r: Vec<BranchInfo>)
    ensures
        stably_sorted(
            branches_view(r@),
            raw@.filter_map(|b: RawBranch| branch_shown(b, opt_str_view(head_name))),
            branch_order(),
        ),
{
    proof {
        branch_order_orders();
    }
    let not_after = |a: &BranchInfo, b: &BranchInfo| -> (r: bool)
        ensures
            r == branch_le(a@, b@),
        {
            if a.is_head != b.is_head {
                a.is_head
            } else if a.is_remote != b.is_remote {
                b.is_remote
            } else {
                text::not_after(a.name.as_str(), b.name.as_str())
            }
        };
    let found = named_branches(raw, head_name);
    let ghost view: spec_fn(BranchInfo) -> BranchView = |b: BranchInfo| b@;
    order::stable_sort::<BranchInfo, BranchView, _>(
        found,
        not_after,
        Ghost(view),
        Ghost(branch_order()),
    )
}

/// Where HEAD goes when a branch is checked out.
pub enum HeadTarget {
    /// A reference, by its name.
    Reference(String),
    /// The commit itself.
    Commit,
}

/// Where HEAD goes: `reference` is the reference that was named, if it was
/// one, and its name, if that is a text.
pub fn checkout_target(reference: Option<Option<String>>) -> (r: AppResult<HeadTarget>)
    ensures
        match reference {
            Some(Some(name)) => r == Ok::<HeadTarget, AppError>(HeadTarget::Reference(name)),
            Some(None) => r is Err && r->Err_0@ == AppErrorView::General(
                "Invalid reference name"@,
            ),
            None => r == Ok::<HeadTarget, AppError>(HeadTarget::Commit),
        },
{
    match reference {
        Some(Some(name)) => Ok(HeadTarget::Reference(name)),
        Some(None) => Err(AppError::msg("Invalid reference name")),
        None => Ok(HeadTarget::Commit),
    }
}

// ── Merging ──────────────────────────────

/// How a branch is merged.
pub enum MergePlan {
    /// Not at all; the text says why.
    Nothing(String),
    /// By moving HEAD on, with a note for the log.
    FastForward { note: String, told: String },
    /// By a commit with the given message.
    Commit { message: String },
}

pub enum MergePlanView {
    Nothing(Seq<char>),
    FastForward { note: Seq<char>, told: Seq<char> },
    Commit { message: Seq<char> },
}

impl View for MergePlan {
    type V = MergePlanView;

    open spec fn view(&self) -> MergePlanView {
        match self {
            MergePlan::Nothing(s) => MergePlanView::Nothing(s@),
            MergePlan::FastForward { note, told } => MergePlanView::FastForward {
                note: note@,
                told: told@,
            },
            MergePlan::Commit { message } => MergePlanView::Commit { message: message@ },
        }
    }
}

/// How a branch is merged, by what the analysis of the two histories says.
pub fn merge_branch(branch: &str, up_to_date: bool, fast_forward: bool) -> (r: MergePlan)
    ensures
        r@ == if up_to_date {
            MergePlanView::Nothing("Already up to date"@)
        } else if fast_forward {
            MergePlanView::FastForward {
                note: "Fast-forward merge "@ + branch@,
                told: "Fast-forward merge"@,
            }
        } else {
            MergePlanView::Commit { message: "Merge branch '"@ + branch@ + "'"@ }
        },
{
    if up_to_date {
        MergePlan::Nothing(text::copy("Already up to date"))
    } else if fast_forward {
        MergePlan::FastForward {
            note: text::copy("Fast-forward merge ").concat(branch),
            told: text::copy("Fast-forward merge"),
        }
    } else {
        MergePlan::Commit { message: text::copy("Merge branch '").concat(branch).concat("'") }
    }
}

/// What comes of a merge by a commit: conflicts end it.
pub fn merge_result(conflicts: bool) -> (r: AppResult<String>)
    ensures
        outcome(r) == if conflicts {
            refused("Merge has conflicts — resolve them manually"@)
        } else {
            Ok("Merge commit created"@)
        },
{
    if conflicts {
        Err(AppError::msg("Merge has conflicts — resolve them manually"))
    } else {
        Ok(text::copy("Merge commit created"))
    }
}

/// The message that a stash is saved with.
pub fn stash_message(message: &str) -> (r: String)
    ensures
        r@ == or_note(message@, "WIP"@),
{
    if text::length(message) == 0 {
        text::copy("WIP")
    } else {
        text::copy(message)
    }
}

// ── Squashing ────────────────────────────

/// What a squash waits for.
#[derive(Debug, Clone, Copy, PartialEq, Eq, Structural)]
pub enum SquashPhase {
    ReadHead,
    Walk,
    Commit,
    MoveHead,
    Over,
}

/// A running squash: it walks back from HEAD by first parents, and makes one
/// commit of those that it came by.
pub struct SquashTask {
    pub phase: SquashPhase,
    /// How many steps back are left.
    pub steps: usize,
    pub message: String,
    /// The commit that HEAD is on.
    pub head: String,
    /// The commit that the walk has reached.
    pub at: String,
    /// The new commit.
    pub made: String,
}

pub struct SquashView {
    pub phase: SquashPhase,
    pub steps: int,
    pub message: Seq<char>,
    pub head: Seq<char>,
    pub at: Seq<char>,
    pub made: Seq<char>,
}

impl View for SquashTask {
    type V = SquashView;

    open spec fn view(&self) -> SquashView {
        SquashView {
            phase: self.phase,
            steps: self.steps as int,
            message: self.message@,
            head: self.head@,
            at: self.at@,
            made: self.made@,
        }
    }
}

/// Outside work that a squash needs.
pub enum SquashRequest {
    /// Open the repository and read the id of the commit that HEAD is on.
    ReadHead,
    /// Read the ids of the parents of a commit.
    ReadParents(String),
    /// Make a commit that nothing leads to, with the tree of one commit and
    /// the given parents.
    Commit { tree_of: String, parents: Vec<String>, message: String },
    /// Move HEAD to a commit, and the index and the working tree with it.
    MoveHead(String),
}

pub enum SquashRequestView {
    ReadHead,
    ReadParents(Seq<char>),
    Commit { tree_of: Seq<char>, parents: Seq<Seq<char>>, message: Seq<char> },
    MoveHead(Seq<char>),
}

impl View for SquashRequest {
    type V = SquashRequestView;

    open spec fn view(&self) -> SquashRequestView {
        match self {
            SquashRequest::ReadHead => SquashRequestView::ReadHead,
            SquashRequest::ReadParents(id) => SquashRequestView::ReadParents(id@),
            SquashRequest::Commit { tree_of, parents, message } => SquashRequestView::Commit {
                tree_of: tree_of@,
                parents: texts(parents@),
                message: message@,
            },
            SquashRequest::MoveHead(id) => SquashRequestView::MoveHead(id@),
        }
    }
}

/// What came of outside work.
pub enum SquashReply {
    Failed(AppError),
    Head(String),
    Parents(Vec<String>),
    Made(String),
    Done,
}

/// How a squash goes on; it ends with the id of the new commit.
pub enum SquashStep {
    Ask(SquashRequest),
    Done(String),
    Failed(AppError),
}

pub enum SquashStepView {
    Ask(SquashRequestView),
    Done(Seq<char>),
    Failed(AppErrorView),
}

impl View for SquashStep {
    type V = SquashStepView;

    open spec fn view(&self) -> SquashStepView {
        match self {
            SquashStep::Ask(r) => SquashStepView::Ask(r@),
            SquashStep::Done(id) => SquashStepView::Done(id@),
            SquashStep::Failed(e) => SquashStepView::Failed(e@),
        }
    }
}

/// A step back from a commit is possible where it has one parent.
pub open spec fn step_back(parents: nat) -> Result<(), AppErrorView> {
    if parents == 0 {
        refused("Not enough commits to squash"@)
    } else if parents > 1 {
        refused("Cannot squash across merge commits"@)
    } else {
        Ok(())
    }
}

/// How a squash of `count` commits starts.
pub open spec fn squash_start(count: usize, message: Seq<char>) -> (SquashView, SquashStepView) {
    let t = SquashView {
        phase: SquashPhase::ReadHead,
        steps: count - 1,
        message,
        head: ""@,
        at: ""@,
        made: ""@,
    };
    if count < 2 {
        (
            SquashView { phase: SquashPhase::Over, steps: 0, ..t },
            SquashStepView::Failed(AppErrorView::General("Need at least 2 commits to squash"@)),
        )
    } else {
        (t, SquashStepView::Ask(SquashRequestView::ReadHead))
    }
}

impl SquashView {
    /// The reply is one to what the squash waits for.
    pub open spec fn accepts(self, reply: SquashReply) -> bool {
        match reply {
            SquashReply::Failed(_) => self.phase != SquashPhase::Over,
            SquashReply::Head(_) => self.phase == SquashPhase::ReadHead,
            SquashReply::Parents(_) => self.phase == SquashPhase::Walk,
            SquashReply::Made(_) => self.phase == SquashPhase::Commit,
            SquashReply::Done => self.phase == SquashPhase::MoveHead,
        }
    }

    pub open spec fn ends(self, step: SquashStepView) -> (SquashView, SquashStepView) {
        (SquashView { phase: SquashPhase::Over, ..self }, step)
    }

    /// The parents of the reached commit are known. The walk goes on to the
    /// only one; where it has come far enough, the new commit has the tree of
    /// HEAD and those parents.
    pub open spec fn after_parents(self, parents: Seq<Seq<char>>) -> (SquashView, SquashStepView) {
        if self.steps <= 0 {
            (
                SquashView { phase: SquashPhase::Commit, ..self },
                SquashStepView::Ask(
                    SquashRequestView::Commit {
                        tree_of: self.head,
                        parents,
                        message: self.message,
                    },
                ),
            )
        } else {
            match step_back(parents.len()) {
                Ok(_) => (
                    SquashView { steps: self.steps - 1, at: parents[0], ..self },
                    SquashStepView::Ask(SquashRequestView::ReadParents(parents[0])),
                ),
                Err(e) => self.ends(SquashStepView::Failed(e)),
            }
        }
    }

    /// What a reply leads to.
    pub open spec fn next(self, reply: SquashReply) -> (SquashView, SquashStepView) {
        match reply {
            SquashReply::Failed(e) => self.ends(SquashStepView::Failed(e@)),
            SquashReply::Head(id) => (
                SquashView { phase: SquashPhase::Walk, head: id@, at: id@, ..self },
                SquashStepView::Ask(SquashRequestView::ReadParents(id@)),
            ),
            SquashReply::Parents(v) => self.after_parents(texts(v@)),
            SquashReply::Made(id) => (
                SquashView { phase: SquashPhase::MoveHead, made: id@, ..self },
                SquashStepView::Ask(SquashRequestView::MoveHead(id@)),
            ),
            SquashReply::Done => self.ends(SquashStepView::Done(self.made)),
        }
    }
}

/// Whether the squash can go back from a commit with that many parents.
pub fn squash_step(parents: usize) -> (r: AppResult<()>)
    ensures
        match r {
            Ok(_) => step_back(parents as nat) is Ok,
            Err(e) => step_back(parents as nat) == Err::<(), AppErrorView>(e@),
        },
{
    if parents == 0 {
        Err(AppError::msg("Not enough commits to squash"))
    } else if parents > 1 {
        Err(AppError::msg("Cannot squash across merge commits"))
    } else {
        Ok(())
    }
}

/// Starts to make one commit of the latest `count`.
pub fn squash_commits(count: usize, message: &str) -> (r: (SquashTask, SquashStep))
    ensures
        (r.0@, r.1@) == squash_start(count, message@),
{
    let mut t = SquashTask {
        phase: SquashPhase::ReadHead,
        steps: 0,
        message: text::copy(message),
        head: text::copy(""),
        at: text::copy(""),
        made: text::copy(""),
    };
    if count < 2 {
        t.phase = SquashPhase::Over;
        (t, SquashStep::Failed(AppError::msg("Need at least 2 commits to squash")))
    } else {
        t.steps = count - 1;
        (t, SquashStep::Ask(SquashRequest::ReadHead))
    }
}

impl SquashTask {
    /// Whether the reply is one to what the squash waits for.
    pub fn accepts(&self, reply: &SquashReply) -> (r: bool)
        ensures
            r == self@.accepts(*reply),
    {
        match reply {
            SquashReply::Failed(_) => self.phase != SquashPhase::Over,
            SquashReply::Head(_) => self.phase == SquashPhase::ReadHead,
            SquashReply::Parents(_) => self.phase == SquashPhase::Walk,
            SquashReply::Made(_) => self.phase == SquashPhase::Commit,
            SquashReply::Done => self.phase == SquashPhase::MoveHead,
        }
    }

    fn end(self, step: SquashStep) -> (r: (SquashTask, SquashStep))
        ensures
            (r.0@, r.1@) == self@.ends(step@),
    {
        (SquashTask { phase: SquashPhase::Over, ..self }, step)
    }

    fn go_back(self, parents: Vec<String>) -> (r: (SquashTask, SquashStep))
        ensures
            (r.0@, r.1@) == self@.after_parents(texts(parents@)),
    {
        if self.steps == 0 {
            let tree_of = self.head.clone();
            let message = self.message.clone();
            return (
                SquashTask { phase: SquashPhase::Commit, ..self },
                SquashStep::Ask(SquashRequest::Commit { tree_of, parents, message }),
            );
        }
        match squash_step(parents.len()) {
            Ok(_) => {
                assert(texts(parents@)[0] == parents@[0]@);
                let at = parents[0].clone();
                let asked = parents[0].clone();
                let steps: usize = self.steps - 1;
                (
                    SquashTask { steps, at, ..self },
                    SquashStep::Ask(SquashRequest::ReadParents(asked)),
                )
            },
            Err(e) => self.end(SquashStep::Failed(e)),
        }
    }

    /// Goes on after a reply.
    pub fn advance(self, reply: SquashReply) -> (r: (SquashTask, SquashStep))
        requires
            self@.accepts(reply),
        ensures
            (r.0@, r.1@) == self@.next(reply),
    {
        match reply {
            SquashReply::Failed(e) => self.end(SquashStep::Failed(e)),
            SquashReply::Head(id) => {
                let at = id.clone();
                let asked = id.clone();
                (
                    SquashTask { phase: SquashPhase::Walk, head: id, at, ..self },
                    SquashStep::Ask(SquashRequest::ReadParents(asked)),
                )
            },
            SquashReply::Parents(v) => self.go_back(v),
            SquashReply::Made(id) => {
                let asked = id.clone();
                (
                    SquashTask { phase: SquashPhase::MoveHead, made: id, ..self },
                    SquashStep::Ask(SquashRequest::MoveHead(asked)),
                )
            },
            SquashReply::Done => {
                let made = self.made.clone();
                self.end(SquashStep::Done(made))
            },
        }
    }
}

/// The commit that is `n` first parents back from another, in a history that
/// gives the parents of each commit.
pub open spec fn ancestor(
    history: spec_fn(Seq<char>) -> Seq<Seq<char>>,
    id: Seq<char>,
    n: int,
) -> Seq<char>
    decreases n,
{
    if n <= 0 {
        id
    } else {
        ancestor(history, history(id)[0], n - 1)
    }
}

/// The `n` commits from one on have exactly one parent each.
pub open spec fn straight(
    history: spec_fn(Seq<char>) -> Seq<Seq<char>>,
    id: Seq<char>,
    n: int,
) -> bool {
    forall|i: int| 0 <= i < n ==> (#[trigger] history(ancestor(history, id, i))).len() == 1
}

/// Where the walk of a squash leads in a history, once it asks for no more
/// parents.
pub open spec fn walked_back(t: SquashView, history: spec_fn(Seq<char>) -> Seq<Seq<char>>) -> (
    SquashView,
    SquashStepView,
)
    decreases t.steps,
{
    let (u, step) = t.after_parents(history(t.at));
    if t.steps > 0 && u.phase == SquashPhase::Walk {
        walked_back(u, history)
    } else {
        (u, step)
    }
}

/// A squash of commits that follow each other makes a commit with the tree of
/// HEAD, the parents of the oldest of them and the given message.
pub proof fn a_squash_replaces_its_commits(
    t: SquashView,
    history: spec_fn(Seq<char>) -> Seq<Seq<char>>,
)
    requires
        t.phase == SquashPhase::Walk,
        t.steps >= 0,
        straight(history, t.at, t.steps),
    ensures
        walked_back(t, history).0.phase == SquashPhase::Commit,
        walked_back(t, history).1 == SquashStepView::Ask(
            SquashRequestView::Commit {
                tree_of: t.head,
                parents: history(ancestor(history, t.at, t.steps)),
                message: t.message,
            },
        ),
    decreases t.steps,
{
    if t.steps > 0 {
        assert(history(ancestor(history, t.at, 0)).len() == 1);
        let (u, step) = t.after_parents(history(t.at));
        assert forall|i: int| 0 <= i < u.steps implies (
        #[trigger] history(ancestor(history, u.at, i))).len() == 1 by {
            assert(ancestor(history, t.at, i + 1) == ancestor(history, u.at, i));
            assert(history(ancestor(history, t.at, i + 1)).len() == 1);
        }
        a_squash_replaces_its_commits(u, history);
    }
}

/// A squash of the latest `count` commits, from its start on: it walks back
/// from HEAD, makes a commit with the tree of HEAD, the parents of the last of
/// those commits and the given message, moves HEAD there, and ends with it.
pub proof fn a_squash_is_of_the_latest_commits(
    count: usize,
    message: Seq<char>,
    head: String,
    made: String,
    history: spec_fn(Seq<char>) -> Seq<Seq<char>>,
)
    requires
        count >= 2,
        straight(history, head@, count - 1),
    ensures
        ({
            let (start, first) = squash_start(count, message);
            let (walk, second) = start.next(SquashReply::Head(head));
            let (end, third) = walked_back(walk, history);
            let (moving, fourth) = end.next(SquashReply::Made(made));
            &&& first == SquashStepView::Ask(SquashRequestView::ReadHead)
            &&& second == SquashStepView::Ask(SquashRequestView::ReadParents(head@))
            &&& third == SquashStepView::Ask(
                SquashRequestView::Commit {
                    tree_of: head@,
                    parents: history(ancestor(history, head@, count - 1)),
                    message,
                },
            )
            &&& end.accepts(SquashReply::Made(made))
            &&& fourth == SquashStepView::Ask(SquashRequestView::MoveHead(made@))
            &&& moving.next(SquashReply::Done).1 == SquashStepView::Done(made@)
        }),
{
    let (walk, second) = squash_start(count, message).0.next(SquashReply::Head(head));
    a_squash_replaces_its_commits(walk, history);
}

/// A squash is refused at the first commit that has no parent or several,
/// where it would have to go back from it.
pub proof fn a_squash_needs_a_straight_line(
    t: SquashView,
    history: spec_fn(Seq<char>) -> Seq<Seq<char>>,
    k: int,
)
    requires
        t.phase == SquashPhase::Walk,
        0 <= k < t.steps,
        straight(history, t.at, k),
        history(ancestor(history, t.at, k)).len() != 1,
    ensures
        walked_back(t, history).1 == SquashStepView::Failed(
            AppErrorView::General(
                if history(ancestor(history, t.at, k)).len() == 0 {
                    "Not enough commits to squash"@
                } else {
                    "Cannot squash across merge commits"@
                },
            ),
        ),
    decreases k,
{
    if k > 0 {
        assert(history(ancestor(history, t.at, 0)).len() == 1);
        let (u, step) = t.after_parents(history(t.at));
        assert forall|i: int| 0 <= i < k - 1 implies (
        #[trigger] history(ancestor(history, u.at, i))).len() == 1 by {
            assert(ancestor(history, t.at, i + 1) == ancestor(history, u.at, i));
            assert(history(ancestor(history, t.at, i + 1)).len() == 1);
        }
        assert(ancestor(history, t.at, k) == ancestor(history, u.at, k - 1));
        a_squash_needs_a_straight_line(u, history, k - 1);
    }
}

/// HEAD moves only to the commit that was made, and the squash ends with that
/// commit.
pub proof fn a_squash_moves_head_to_its_commit(t: SquashView, reply: SquashReply)
    requires
        t.accepts(reply),
    ensures
        t.next(reply).1 matches SquashStepView::Ask(SquashRequestView::MoveHead(id)) ==> {
            &&& reply matches SquashReply::Made(made)
            &&& made@ == id
            &&& t.next(reply).0.next(SquashReply::Done).1 == SquashStepView::Done(id)
        },
{
}

// ── Remotes, profile, pages ──────────────

/// What is shown of a remote.
pub fn remote_info(name: String, url: Option<String>) -> (r: RemoteInfo)
    ensures
        r@ == (name@, text_or(url, ""@)),
{
    RemoteInfo { name, url: or_text(url, "") }
}

/// The user that commits are made as; what is not configured is empty.
pub fn get_git_profile(name: Option<String>, email: Option<String>) -> (r: GitProfile)
    ensures
        r.name@ == text_or(name, ""@),
        r.email@ == text_or(email, ""@),
{
    GitProfile { name: or_text(name, ""), email: or_text(email, "") }
}

/// The address of `origin`; `found` is the address of the remote, if there
/// is such a remote and its address is a text.
pub fn origin_url(found: Option<Option<String>>) -> (r: AppResult<String>)
    ensures
        outcome(r) == match found {
            Some(Some(url)) => Ok(url@),
            Some(None) => refused("Origin remote has no URL"@),
            None => refused("No 'origin' remote found"@),
        },
{
    match found {
        Some(Some(url)) => Ok(url),
        Some(None) => Err(AppError::msg("Origin remote has no URL")),
        None => Err(AppError::msg("No 'origin' remote found")),
    }
}

/// The page on which a pull request for a branch is opened.
pub open spec fn pr_page(url: Seq<char>, branch: Seq<char>) -> Result<Seq<char>, AppErrorView> {
    let base = web_address(url);
    if has_text(base, "github.com"@) {
        Ok(base + "/compare/"@ + branch + "?expand=1"@)
    } else if has_text(base, "gitlab"@) {
        Ok(
            base + "/-/merge_requests/new?merge_request%5Bsource_branch%5D="@ + branch,
        )
    } else if has_text(base, "bitbucket.org"@) {
        Ok(base + "/pull-requests/new?source="@ + branch)
    } else {
        refused("Unsupported git host in URL: "@ + url)
    }
}

/// The page on which a pull request for the current branch is opened; `url`
/// is the address of `origin`.
pub fn get_pr_url(url: &str, branch: Option<&str>) -> (r: AppResult<String>)
    ensures
        outcome(r) == pr_page(
            url@,
            match branch {
                Some(b) => b@,
                None => "main"@,
            },
        ),
{
    let base = normalize_remote_url(url);
    let branch = match branch {
        Some(b) => b,
        None => "main",
    };
    if text::contains(base.as_str(), "github.com") {
        Ok(base.concat("/compare/").concat(branch).concat("?expand=1"))
    } else if text::contains(base.as_str(), "gitlab") {
        Ok(base.concat("/-/merge_requests/new?merge_request%5Bsource_branch%5D=").concat(branch))
    } else if text::contains(base.as_str(), "bitbucket.org") {
        Ok(base.concat("/pull-requests/new?source=").concat(branch))
    } else {
        let s = text::copy("Unsupported git host in URL: ").concat(url);
        Err(AppError::msg(s.as_str()))
    }
}

/// The names of readme files, in order of preference.
pub open spec fn readme_order() -> Seq<Seq<char>> {
    seq![
        "README.md"@,
        "readme.md"@,
        "Readme.md"@,
        "README.MD"@,
        "README"@,
        "README.txt"@,
        "README.rst"@,
    ]
}

/// The names of readme files, in order of preference.
pub fn readme_names() -> (r: Vec<String>)
    ensures
        texts(r@) == readme_order(),
{
    let mut v: Vec<String> = Vec::new();
    v.push(text::copy("README.md"));
    v.push(text::copy("readme.md"));
    v.push(text::copy("Readme.md"));
    v.push(text::copy("README.MD"));
    v.push(text::copy("README"));
    v.push(text::copy("README.txt"));
    v.push(text::copy("README.rst"));
    assert(texts(v@) =~= readme_order());
    v
}

/// The first readme file that there is; `is_file` says of each name, in
/// order, whether there is a file of that name.
pub fn get_readme(is_file: &Vec<bool>) -> (r: Option<String>)
    requires
        is_file@.len() == readme_order().len(),
    ensures
        opt_view(r) == match is_file@.index_of_first(true) {
            Some(i) => Some(readme_order()[i]),
            None => None,
        },
{
    let names = readme_names();
    let mut i: usize = 0;
    proof {
        is_file@.index_of_first_ensures(true);
    }
    while i < is_file.len()
        invariant
            i <= is_file@.len(),
            is_file@.len() == names@.len(),
            texts(names@) == readme_order(),
            forall|j: int| 0 <= j < i ==> !#[trigger] is_file@[j],
            match is_file@.index_of_first(true) {
                Some(k) => 0 <= k < is_file@.len() && is_file@[k] && forall|j: int|
                    0 <= j < k ==> !#[trigger] is_file@[j],
                None => !is_file@.contains(true),
            },
        decreases is_file@.len() - i,
    {
        if is_file[i] {
            assert(is_file@.contains(true));
            assert(texts(names@)[i as int] == names@[i as int]@);
            return Some(names[i].clone());
        }
        i = i + 1;
    }
    None
}

/// What is said of a readme file that cannot be read.
pub fn readme_error(name: &str, why: &str) -> (r: AppError)
    ensures
        r@ == AppErrorView::General("Failed to read "@ + name@ + ": "@ + why@),
{
    let s = text::copy("Failed to read ").concat(name).concat(": ").concat(why);
    AppError::msg(s.as_str())
}

} // verus!
