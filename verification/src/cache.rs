//! What is kept between runs: the known repositories and the scan roots.
use vstd::prelude::*;
use vstd::string::*;

use crate::git::ssh_config::opt_str_view;
use crate::models::RepoInfo;
use crate::paths;
use crate::paths::joined_path;
use crate::text;
use crate::text::{opt_view, texts};

verus! {

#[derive(Debug)]
pub struct Config {
    pub scan_roots: Vec<String>,
}

impl Default for Config {
    fn default() -> (r: Self)
        ensures
            r.scan_roots@.len() == 0,
    {
        Config { scan_roots: Vec::new() }
    }
}

/// A directory or file under another directory, where that is known.
pub open spec fn under(base: Option<Seq<char>>, name: Seq<char>) -> Option<Seq<char>> {
    match base {
        Some(b) => Some(joined_path(b, name)),
        None => None,
    }
}

/// The directory that the known repositories are kept in, under the one that
/// the platform has for a user's data.
pub fn data_dir(base: Option<&str>) -> (r: Option<String>)
    ensures
        opt_view(r) == under(opt_str_view(base), "gitatlas"@),
{
    match base {
        Some(b) => Some(paths::join(b, "gitatlas")),
        None => None,
    }
}

/// The directory that the configuration is kept in, under the one that the
/// platform has for a user's configuration.
pub fn config_dir(base: Option<&str>) -> (r: Option<String>)
    ensures
        opt_view(r) == under(opt_str_view(base), "gitatlas"@),
{
    match base {
        Some(b) => Some(paths::join(b, "gitatlas")),
        None => None,
    }
}

/// The file that the known repositories are kept in.
pub fn cache_file(dir: &str) -> (r: String)
    ensures
        r@ == joined_path(dir@, "cache.json"@),
{
    paths::join(dir, "cache.json")
}

/// The file that the configuration is kept in.
pub fn config_file(dir: &str) -> (r: String)
    ensures
        r@ == joined_path(dir@, "config.json"@),
{
    paths::join(dir, "config.json")
}

/// The root that is scanned where none is configured.
pub fn default_root(home: Option<&str>) -> (r: Option<String>)
    ensures
        opt_view(r) == under(opt_str_view(home), "dev"@),
{
    match home {
        Some(h) => Some(paths::join(h, "dev")),
        None => None,
    }
}

/// The configured roots; where there are none, `~/dev` if that is a directory.
pub open spec fn roots_to_scan(
    configured: Seq<Seq<char>>,
    home: Option<Seq<char>>,
    default_is_dir: bool,
) -> Seq<Seq<char>> {
    if configured.len() > 0 {
        configured
    } else {
        match under(home, "dev"@) {
            Some(dev) => if default_is_dir {
                seq![dev]
            } else {
                seq![]
            },
            None => seq![],
        }
    }
}

/// The roots to scan; `default_is_dir` says whether the default root is a
/// directory.
pub fn effective_scan_roots(cfg: Config, home: Option<&str>, default_is_dir: bool) -> (r: Vec<
    String,
>)
    ensures
        texts(r@) == roots_to_scan(
            texts(cfg.scan_roots@),
            opt_str_view(home),
            default_is_dir,
        ),
{
    if cfg.scan_roots.len() > 0 {
        return cfg.scan_roots;
    }
    let mut roots: Vec<String> = Vec::new();
    assert(texts(roots@) =~= seq![]);
    if let Some(dev) = default_root(home) {
        if default_is_dir {
            roots.push(dev);
            assert(texts(roots@) =~= seq![dev@]);
        }
    }
    roots
}

// ── The known repositories ───────────────

/// The place of the first repository at a path.
pub open spec fn place_of(repos: Seq<RepoInfo>, path: Seq<char>) -> Option<int>
    decreases repos.len(),
{
    if repos.len() == 0 {
        None
    } else {
        match place_of(repos.drop_last(), path) {
            Some(i) => Some(i),
            None => if repos.last().path@ == path {
                Some(repos.len() - 1)
            } else {
                None
            },
        }
    }
}

/// The known repositories with the state of one brought up to date.
pub open spec fn updated_in(repos: Seq<RepoInfo>, path: Seq<char>, updated: RepoInfo) -> Seq<
    RepoInfo,
> {
    match place_of(repos, path) {
        Some(i) => repos.update(i, updated),
        None => repos,
    }
}

/// The known repositories with the state of one brought up to date, or added.
pub open spec fn with_status(repos: Seq<RepoInfo>, path: Seq<char>, updated: RepoInfo) -> Seq<
    RepoInfo,
> {
    match place_of(repos, path) {
        Some(i) => repos.update(i, updated),
        None => repos.push(updated),
    }
}

/// The place is that of a repository at the path, and none before it is at it.
pub proof fn place_is_first(repos: Seq<RepoInfo>, path: Seq<char>)
    ensures
        match place_of(repos, path) {
            Some(i) => {
                &&& 0 <= i < repos.len()
                &&& repos[i].path@ == path
                &&& forall|j: int| 0 <= j < i ==> (#[trigger] repos[j]).path@ != path
            },
            None => forall|j: int| 0 <= j < repos.len() ==> (#[trigger] repos[j]).path@ != path,
        },
    decreases repos.len(),
{
    if repos.len() > 0 {
        let rest = repos.drop_last();
        place_is_first(rest, path);
        match place_of(rest, path) {
            Some(i) => {
                assert(rest[i] == repos[i]);
                assert forall|j: int| 0 <= j < i implies (#[trigger] repos[j]).path@ != path by {
                    assert(rest[j] == repos[j]);
                }
            },
            None => {
                assert forall|j: int| 0 <= j < rest.len() implies (
                #[trigger] repos[j]).path@ != path by {
                    assert(rest[j] == repos[j]);
                }
            },
        }
    }
}

proof fn place_is_unique(repos: Seq<RepoInfo>, path: Seq<char>, i: int)
    requires
        0 <= i < repos.len(),
        repos[i].path@ == path,
        forall|j: int| 0 <= j < i ==> (#[trigger] repos[j]).path@ != path,
    ensures
        place_of(repos, path) == Some(i),
{
    place_is_first(repos, path);
    match place_of(repos, path) {
        Some(k) => {
            if k < i {
                assert(repos[k].path@ != path);
            }
            if i < k {
                assert(repos[i].path@ != path);
            }
        },
        None => {
            assert(repos[i].path@ != path);
        },
    }
}

/// The place of the first repository at a path.
pub fn find_place(repos: &Vec<RepoInfo>, path: &str) -> (r: Option<usize>)
    ensures
        match r {
            Some(i) => i < repos@.len() && place_of(repos@, path@) == Some(i as int),
            None => place_of(repos@, path@) is None,
        },
{
    let mut i: usize = 0;
    while i < repos.len()
        invariant
            i <= repos@.len(),
            forall|j: int| 0 <= j < i ==> (#[trigger] repos@[j]).path@ != path@,
        decreases repos@.len() - i,
    {
        if text::same(repos[i].path.as_str(), path) {
            proof {
                place_is_unique(repos@, path@, i as int);
            }
            return Some(i);
        }
        i = i + 1;
    }
    proof {
        place_is_first(repos@, path@);
    }
    None
}

/// Bringing a repository up to date puts its state in its place, or at the
/// end where it had none, and changes nothing else.
pub proof fn updating_touches_one(
    repos: Seq<RepoInfo>,
    path: Seq<char>,
    updated: RepoInfo,
    k: int,
)
    requires
        0 <= k < repos.len(),
        place_of(repos, path) != Some(k),
    ensures
        with_status(repos, path, updated)[k] == repos[k],
        with_status(repos, path, updated).contains(updated),
        with_status(repos, path, updated).len() == repos.len() + if place_of(repos, path) is None {
            1int
        } else {
            0
        },
{
    place_is_first(repos, path);
    let r = with_status(repos, path, updated);
    match place_of(repos, path) {
        Some(i) => {
            assert(r[i] == updated);
        },
        None => {
            assert(r[repos.len() as int] == updated);
        },
    }
}

} // verus!
