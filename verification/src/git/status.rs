//! The state of a repository.
use vstd::prelude::*;
use vstd::string::*;

use crate::models::{RepoHealth, RepoInfo};
use crate::paths;
use crate::paths::file_name_of;
use crate::text;
use crate::text::opt_view;

verus! {

/// What was read of a repository that could be opened.
pub struct RepoProbe {
    /// The short name of HEAD.
    pub head_name: Option<String>,
    /// How many commits HEAD and its counterpart on `origin` have on their
    /// own, where both are there.
    pub ahead_behind: Option<(usize, usize)>,
    /// The number of changed files, where it could be read.
    pub dirty_files: Option<usize>,
    pub stash_count: u32,
    pub origin_url: Option<String>,
}

/// The reference that HEAD is compared with.
pub open spec fn compared_ref(has_target: bool, head_name: Option<Seq<char>>) -> Option<Seq<char>> {
    match head_name {
        Some(b) => if has_target {
            Some("refs/remotes/origin/"@ + b)
        } else {
            None
        },
        None => None,
    }
}

/// The reference that HEAD is compared with, where HEAD leads to a commit and
/// has a name.
pub fn upstream_ref(has_target: bool, head_name: &Option<String>) -> (r: Option<String>)
    ensures
        opt_view(r) == compared_ref(has_target, opt_view(*head_name)),
{
    match head_name {
        Some(b) => if has_target {
            Some(text::copy("refs/remotes/origin/").concat(b.as_str()))
        } else {
            None
        },
        None => None,
    }
}

/// A count in the width that is kept of it.
pub open spec fn kept_count(n: usize) -> u32 {
    (n as int % 0x1_0000_0000) as u32
}

fn keep_count(n: usize) -> (r: u32)
    ensures
        r == kept_count(n),
{
    let wide: u64 = n as u64;
    assert((wide as u32) as u64 == wide % 0x1_0000_0000) by (bit_vector);
    #[verifier::truncate]
    let r: u32 = wide as u32;
    r
}

/// Commits on both sides, or changes here and commits there, diverge. Being
/// only behind is clean.
pub open spec fn health_of(ahead: u32, behind: u32, dirty_files: u32) -> RepoHealth {
    if behind > 0 && (ahead > 0 || dirty_files > 0) {
        RepoHealth::Diverged
    } else if dirty_files > 0 || ahead > 0 {
        RepoHealth::Dirty
    } else {
        RepoHealth::Clean
    }
}

/// The health of a repository that could be opened.
pub fn determine_health(ahead: u32, behind: u32, dirty_files: u32) -> (r: RepoHealth)
    ensures
        r == health_of(ahead, behind, dirty_files),
{
    if behind > 0 && (ahead > 0 || dirty_files > 0) {
        RepoHealth::Diverged
    } else if dirty_files > 0 || ahead > 0 {
        RepoHealth::Dirty
    } else {
        RepoHealth::Clean
    }
}

/// A repository is clean exactly where nothing here waits to be sent or
/// committed, however far it is behind.
pub proof fn clean_means_nothing_local(ahead: u32, behind: u32, dirty_files: u32)
    ensures
        health_of(ahead, behind, dirty_files) == RepoHealth::Clean <==> ahead == 0 && dirty_files
            == 0,
{
}

/// Where there is local work already, more of it leaves the health as it is.
pub proof fn more_local_work_changes_nothing(
    ahead: u32,
    behind: u32,
    dirty_files: u32,
    more_ahead: u32,
    more_dirty: u32,
)
    requires
        ahead <= more_ahead,
        dirty_files <= more_dirty,
        health_of(ahead, behind, dirty_files) != RepoHealth::Clean,
    ensures
        health_of(more_ahead, behind, more_dirty) == health_of(ahead, behind, dirty_files),
{
}

/// The name of the repository at `path`.
pub open spec fn repo_name(path: Seq<char>) -> Seq<char> {
    match file_name_of(path) {
        Some(n) => n,
        None => "unknown"@,
    }
}

/// The state of the repository at `path`; `probe` is what was read of it, or
/// nothing where it could not be opened.
pub fn get_repo_info(path: &str, now: String, probe: Option<RepoProbe>) -> (r: RepoInfo)
    ensures
        r.path@ == path@,
        r.name@ == repo_name(path@),
        r.last_checked == now,
        match probe {
            None => {
                &&& r.branch@ == "unknown"@
                &&& (r.ahead, r.behind, r.dirty_files, r.stash_count) == (0u32, 0u32, 0u32, 0u32)
                &&& r.health == RepoHealth::Error
                &&& r.remote_url is None
            },
            Some(p) => {
                &&& r.branch@ == match p.head_name {
                    Some(b) => b@,
                    None => "HEAD (detached)"@,
                }
                &&& (r.ahead, r.behind) == match p.ahead_behind {
                    Some(c) => (kept_count(c.0), kept_count(c.1)),
                    None => (0, 0),
                }
                &&& r.dirty_files == match p.dirty_files {
                    Some(n) => kept_count(n),
                    None => 0,
                }
                &&& r.stash_count == p.stash_count
                &&& r.health == health_of(r.ahead, r.behind, r.dirty_files)
                &&& r.remote_url == p.origin_url
            },
        },
{
    let name = match paths::file_name(path) {
        Some(n) => n,
        None => text::copy("unknown"),
    };
    let p = match probe {
        Some(p) => p,
        None => {
            return RepoInfo {
                path: text::copy(path),
                name,
                branch: text::copy("unknown"),
                ahead: 0,
                behind: 0,
                dirty_files: 0,
                stash_count: 0,
                health: RepoHealth::Error,
                last_checked: now,
                remote_url: None,
            };
        },
    };
    let branch = match p.head_name {
        Some(b) => b,
        None => text::copy("HEAD (detached)"),
    };
    let (ahead, behind): (u32, u32) = match p.ahead_behind {
        Some((a, b)) => (keep_count(a), keep_count(b)),
        None => (0, 0),
    };
    let dirty_files: u32 = match p.dirty_files {
        Some(n) => keep_count(n),
        None => 0,
    };
    RepoInfo {
        path: text::copy(path),
        name,
        branch,
        ahead,
        behind,
        dirty_files,
        stash_count: p.stash_count,
        health: determine_health(ahead, behind, dirty_files),
        last_checked: now,
        remote_url: p.origin_url,
    }
}

} // verus!
