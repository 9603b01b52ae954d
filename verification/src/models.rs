//! What is known of a repository, its commits, files and branches.
use vstd::prelude::*;
use vstd::string::*;

use crate::text;
use crate::text::{ascii_lowercase, has_text, lowercase, opt_view};

verus! {

/// A repository as it was last seen.
#[derive(Debug)]
pub struct RepoInfo {
    pub path: String,
    pub name: String,
    pub branch: String,
    pub ahead: u32,
    pub behind: u32,
    pub dirty_files: u32,
    pub stash_count: u32,
    pub health: RepoHealth,
    pub last_checked: String,
    pub remote_url: Option<String>,
}

impl Clone for RepoInfo {
    fn clone(&self) -> (r: Self)
        ensures
            r == *self,
    {
        RepoInfo {
            path: self.path.clone(),
            name: self.name.clone(),
            branch: self.branch.clone(),
            ahead: self.ahead,
            behind: self.behind,
            dirty_files: self.dirty_files,
            stash_count: self.stash_count,
            health: self.health,
            last_checked: self.last_checked.clone(),
            remote_url: match &self.remote_url {
                Some(u) => Some(u.clone()),
                None => None,
            },
        }
    }
}

#[derive(Debug, Clone, Copy, PartialEq, Eq, Structural)]
pub enum RepoHealth {
    Clean,
    Dirty,
    Diverged,
    Error,
}

/// A search text occurs in the name, the branch or the path of a repository;
/// all four are in lower case.
pub open spec fn found_in(
    needle: Seq<char>,
    name: Seq<char>,
    branch: Seq<char>,
    path: Seq<char>,
) -> bool {
    has_text(name, needle) || has_text(branch, needle) || has_text(path, needle)
}

/// Whether a search text occurs in the name, the branch or the path of a
/// repository, with all four in lower case.
pub fn search_hits(needle: &str, name: &str, branch: &str, path: &str) -> (r: bool)
    ensures
        r == found_in(needle@, name@, branch@, path@),
{
    text::contains(name, needle) || text::contains(branch, needle) || text::contains(path, needle)
}

impl RepoInfo {
    /// A search text in lower case occurs in the name, the branch or the
    /// path, whatever their case.
    pub open spec fn has_needle(self, needle: Seq<char>) -> bool {
        found_in(
            needle,
            lowercase(self.name@),
            lowercase(self.branch@),
            lowercase(self.path@),
        )
    }

    /// Whether a search text in lower case occurs in the name, the branch or
    /// the path.
    pub fn mentions(&self, needle: &str) -> (r: bool)
        ensures
            r == self.has_needle(needle@),
    {
        let name = text::to_lowercase(self.name.as_str());
        let branch = text::to_lowercase(self.branch.as_str());
        let path = text::to_lowercase(self.path.as_str());
        search_hits(needle, name.as_str(), branch.as_str(), path.as_str())
    }
}

/// The name of a health.
pub open spec fn health_text(h: RepoHealth) -> Seq<char> {
    match h {
        RepoHealth::Clean => "clean"@,
        RepoHealth::Dirty => "dirty"@,
        RepoHealth::Diverged => "diverged"@,
        RepoHealth::Error => "error"@,
    }
}

/// The health that a text names, whatever the case of its ASCII letters.
/// `changes` is another name for dirty.
pub open spec fn health_named(s: Seq<char>) -> Option<RepoHealth> {
    let l = ascii_lowercase(s);
    if l == "clean"@ {
        Some(RepoHealth::Clean)
    } else if l == "dirty"@ || l == "changes"@ {
        Some(RepoHealth::Dirty)
    } else if l == "diverged"@ {
        Some(RepoHealth::Diverged)
    } else if l == "error"@ {
        Some(RepoHealth::Error)
    } else {
        None
    }
}

impl RepoHealth {
    /// The health that `s` names.
    pub fn parse(s: &str) -> (r: Option<Self>)
        ensures
            r == health_named(s@),
    {
        let l = text::to_ascii_lowercase(s);
        if text::same(l.as_str(), "clean") {
            Some(RepoHealth::Clean)
        } else if text::same(l.as_str(), "dirty") || text::same(l.as_str(), "changes") {
            Some(RepoHealth::Dirty)
        } else if text::same(l.as_str(), "diverged") {
            Some(RepoHealth::Diverged)
        } else if text::same(l.as_str(), "error") {
            Some(RepoHealth::Error)
        } else {
            None
        }
    }
}

/// The name of a health.
pub fn health_name(h: RepoHealth) -> (r: &'static str)
    ensures
        r@ == health_text(h),
{
    match h {
        RepoHealth::Clean => "clean",
        RepoHealth::Dirty => "dirty",
        RepoHealth::Diverged => "diverged",
        RepoHealth::Error => "error",
    }
}

/// Reading the name of a health gives the health back.
pub proof fn health_name_reads_back(h: RepoHealth)
    ensures
        health_named(health_text(h)) == Some(h),
{
    reveal_strlit("clean");
    reveal_strlit("dirty");
    reveal_strlit("changes");
    reveal_strlit("diverged");
    reveal_strlit("error");
    assert(ascii_lowercase("clean"@) =~= "clean"@);
    assert(ascii_lowercase("dirty"@) =~= "dirty"@);
    assert(ascii_lowercase("diverged"@) =~= "diverged"@);
    assert(ascii_lowercase("error"@) =~= "error"@);
    assert("clean"@[0] == 'c' && "dirty"@[0] == 'd' && "changes"@.len() == 7);
    assert("diverged"@.len() == 8 && "error"@[0] == 'e');
}

/// Texts that differ only in the case of ASCII letters name the same health.
pub proof fn health_ignores_case(a: Seq<char>, b: Seq<char>)
    requires
        ascii_lowercase(a) == ascii_lowercase(b),
    ensures
        health_named(a) == health_named(b),
{
}

#[derive(Debug)]
pub struct CommitInfo {
    pub oid: String,
    pub short_oid: String,
    pub message: String,
    pub author: String,
    pub author_email: String,
    pub date: String,
    pub parents: Vec<String>,
    pub refs: Vec<RefLabel>,
}

/// What a commit holds.
pub struct CommitView {
    pub oid: Seq<char>,
    pub short_oid: Seq<char>,
    pub message: Seq<char>,
    pub author: Seq<char>,
    pub author_email: Seq<char>,
    pub date: Seq<char>,
    pub parents: Seq<Seq<char>>,
    pub refs: Seq<(Seq<char>, RefKind)>,
}

impl View for CommitInfo {
    type V = CommitView;

    open spec fn view(&self) -> CommitView {
        CommitView {
            oid: self.oid@,
            short_oid: self.short_oid@,
            message: self.message@,
            author: self.author@,
            author_email: self.author_email@,
            date: self.date@,
            parents: text::texts(self.parents@),
            refs: labels_view(self.refs@),
        }
    }
}

pub open spec fn commits_view(v: Seq<CommitInfo>) -> Seq<CommitView> {
    v.map_values(|c: CommitInfo| c@)
}

#[derive(Debug)]
pub struct RefLabel {
    pub name: String,
    pub kind: RefKind,
}

impl View for RefLabel {
    type V = (Seq<char>, RefKind);

    open spec fn view(&self) -> (Seq<char>, RefKind) {
        (self.name@, self.kind)
    }
}

pub open spec fn labels_view(v: Seq<RefLabel>) -> Seq<(Seq<char>, RefKind)> {
    v.map_values(|l: RefLabel| l@)
}

impl Clone for RefLabel {
    fn clone(&self) -> (r: Self)
        ensures
            r == *self,
    {
        RefLabel { name: self.name.clone(), kind: self.kind }
    }
}

#[derive(Debug, Clone, Copy, PartialEq, Eq, Structural)]
pub enum RefKind {
    Head,
    Local,
    Remote,
    Tag,
}

#[derive(Debug)]
pub struct FileChange {
    pub path: String,
    pub status: FileStatus,
    pub staged: bool,
}

impl View for FileChange {
    type V = (Seq<char>, FileStatus, bool);

    open spec fn view(&self) -> (Seq<char>, FileStatus, bool) {
        (self.path@, self.status, self.staged)
    }
}

#[derive(Debug, Clone, Copy, PartialEq, Eq, Structural)]
pub enum FileStatus {
    Added,
    Modified,
    Deleted,
    Renamed,
    Untracked,
    Conflicted,
}

/// The one-letter code of a file status.
pub open spec fn short_code(s: FileStatus) -> Seq<char> {
    match s {
        FileStatus::Added => "A"@,
        FileStatus::Modified => "M"@,
        FileStatus::Deleted => "D"@,
        FileStatus::Renamed => "R"@,
        FileStatus::Untracked => "?"@,
        FileStatus::Conflicted => "U"@,
    }
}

impl FileStatus {
    /// The one-letter code of a file status.
    pub fn short(&self) -> (r: &'static str)
        ensures
            r@ == short_code(*self),
    {
        match self {
            FileStatus::Added => "A",
            FileStatus::Modified => "M",
            FileStatus::Deleted => "D",
            FileStatus::Renamed => "R",
            FileStatus::Untracked => "?",
            FileStatus::Conflicted => "U",
        }
    }
}

/// Different file statuses have different codes.
pub proof fn short_codes_differ(a: FileStatus, b: FileStatus)
    requires
        short_code(a) == short_code(b),
    ensures
        a == b,
{
    reveal_strlit("A");
    reveal_strlit("M");
    reveal_strlit("D");
    reveal_strlit("R");
    reveal_strlit("?");
    reveal_strlit("U");
    assert("A"@[0] == 'A' && "M"@[0] == 'M' && "D"@[0] == 'D');
    assert("R"@[0] == 'R' && "?"@[0] == '?' && "U"@[0] == 'U');
}

#[derive(Debug)]
pub struct BranchInfo {
    pub name: String,
    pub is_head: bool,
    pub is_remote: bool,
    pub upstream: Option<String>,
}

/// What a branch holds.
pub struct BranchView {
    pub name: Seq<char>,
    pub is_head: bool,
    pub is_remote: bool,
    pub upstream: Option<Seq<char>>,
}

impl View for BranchInfo {
    type V = BranchView;

    open spec fn view(&self) -> BranchView {
        BranchView {
            name: self.name@,
            is_head: self.is_head,
            is_remote: self.is_remote,
            upstream: opt_view(self.upstream),
        }
    }
}

#[derive(Debug)]
pub struct StashEntry {
    pub index: usize,
    pub message: String,
}

#[derive(Debug)]
pub struct CommitFileChange {
    pub path: String,
    pub status: String,
}

impl View for CommitFileChange {
    type V = (Seq<char>, Seq<char>);

    open spec fn view(&self) -> (Seq<char>, Seq<char>) {
        (self.path@, self.status@)
    }
}

#[derive(Debug)]
pub struct RemoteInfo {
    pub name: String,
    pub url: String,
}

impl View for RemoteInfo {
    type V = (Seq<char>, Seq<char>);

    open spec fn view(&self) -> (Seq<char>, Seq<char>) {
        (self.name@, self.url@)
    }
}

#[derive(Debug)]
pub struct GitProfile {
    pub name: String,
    pub email: String,
}

} // verus!
