//! Finding the repository that the user means: by the name of a known one, or
//! by its path.
use vstd::prelude::*;
use vstd::string::*;

use crate::error::{AppError, AppErrorView};
use crate::git::ssh_config::opt_str_view;
use crate::models::RepoInfo;
use crate::paths;
use crate::paths::{file_name_of, joined_path};
use crate::text;
use crate::text::{after_prefix, ascii_lowercase, joined, texts};

verus! {

/// A text that is taken as a path and not as a name.
pub open spec fn path_like(s: Seq<char>) -> bool {
    ||| s == "."@
    ||| "/"@.is_prefix_of(s)
    ||| "./"@.is_prefix_of(s)
    ||| "../"@.is_prefix_of(s)
    ||| "~"@.is_prefix_of(s)
}

/// Whether a text is taken as a path and not as a name.
pub fn looks_like_path(identifier: &str) -> (r: bool)
    ensures
        r == path_like(identifier@),
{
    text::same(identifier, ".") || text::starts_with(identifier, "/") || text::starts_with(
        identifier,
        "./",
    ) || text::starts_with(identifier, "../") || text::starts_with(identifier, "~")
}

/// Outside work that a search needs.
pub enum ResolveRequest {
    /// Make a path absolute and follow its links.
    Canonicalize(String),
    /// Look whether a path exists.
    Exists(String),
    /// Load the known repositories.
    LoadCache,
}

pub enum ResolveRequestView {
    Canonicalize(Seq<char>),
    Exists(Seq<char>),
    LoadCache,
}

impl View for ResolveRequest {
    type V = ResolveRequestView;

    open spec fn view(&self) -> ResolveRequestView {
        match self {
            ResolveRequest::Canonicalize(p) => ResolveRequestView::Canonicalize(p@),
            ResolveRequest::Exists(p) => ResolveRequestView::Exists(p@),
            ResolveRequest::LoadCache => ResolveRequestView::LoadCache,
        }
    }
}

/// What came of outside work.
pub enum ResolveReply {
    /// The absolute path, or why there is none.
    Canonical(Result<String, String>),
    Exists(bool),
    Cache(Vec<RepoInfo>),
}

/// What a search waits for.
pub enum Resolving {
    /// The absolute form of the path that the user gave.
    Canonical(String),
    /// Whether the path is a repository.
    GitDir(String),
    /// The known repositories, to look the name up.
    Cached(String),
    /// Whether a name that nobody has is the path of a repository.
    Unknown(String),
}

pub enum ResolvingView {
    Canonical(Seq<char>),
    GitDir(Seq<char>),
    Cached(Seq<char>),
    Unknown(Seq<char>),
}

impl View for Resolving {
    type V = ResolvingView;

    open spec fn view(&self) -> ResolvingView {
        match self {
            Resolving::Canonical(s) => ResolvingView::Canonical(s@),
            Resolving::GitDir(s) => ResolvingView::GitDir(s@),
            Resolving::Cached(s) => ResolvingView::Cached(s@),
            Resolving::Unknown(s) => ResolvingView::Unknown(s@),
        }
    }
}

/// What a search does next.
pub enum ResolveStep {
    Ask(Resolving, ResolveRequest),
    Found(String),
    Failed(AppError),
}

pub enum ResolveStepView {
    Ask(ResolvingView, ResolveRequestView),
    Found(Seq<char>),
    Failed(AppErrorView),
}

impl View for ResolveStep {
    type V = ResolveStepView;

    open spec fn view(&self) -> ResolveStepView {
        match self {
            ResolveStep::Ask(s, r) => ResolveStepView::Ask(s@, r@),
            ResolveStep::Found(p) => ResolveStepView::Found(p@),
            ResolveStep::Failed(e) => ResolveStepView::Failed(e@),
        }
    }
}

/// How a search for `id` starts. A path is made absolute first, with the home
/// directory for a leading `~`; anything else is looked up as a name.
pub open spec fn search_for(id: Seq<char>, home: Option<Seq<char>>) -> ResolveStepView {
    if !path_like(id) {
        ResolveStepView::Ask(ResolvingView::Cached(id), ResolveRequestView::LoadCache)
    } else if id == "~"@ {
        match home {
            Some(h) => ResolveStepView::Ask(
                ResolvingView::Canonical(id),
                ResolveRequestView::Canonicalize(h),
            ),
            None => ResolveStepView::Failed(
                AppErrorView::General("Cannot resolve home directory"@),
            ),
        }
    } else {
        ResolveStepView::Ask(
            ResolvingView::Canonical(id),
            ResolveRequestView::Canonicalize(
                match (after_prefix(id, "~/"@), home) {
                    (Some(rest), Some(h)) => joined_path(h, rest),
                    _ => id,
                },
            ),
        )
    }
}

/// The repositories that have a name, whatever the case of ASCII letters.
pub open spec fn named(repos: Seq<RepoInfo>, name: Seq<char>) -> Seq<RepoInfo>
    decreases repos.len(),
{
    if repos.len() == 0 {
        seq![]
    } else {
        let so_far = named(repos.drop_last(), name);
        if ascii_lowercase(repos.last().name@) == ascii_lowercase(name) {
            so_far.push(repos.last())
        } else {
            so_far
        }
    }
}

/// A repository as it is listed among those that share a name.
pub open spec fn choice_line(r: RepoInfo) -> Seq<char> {
    "  "@ + r.name@ + " ("@ + r.path@ + ")"@
}

/// What the user is told where several repositories have the name.
pub open spec fn choices_text(id: Seq<char>, matches: Seq<RepoInfo>) -> Seq<char> {
    "Multiple repos match '"@ + id + "':\n"@ + joined(
        matches.map_values(|r: RepoInfo| choice_line(r)),
        "\n"@,
    ) + "\nSpecify the full path instead."@
}

impl ResolvingView {
    /// The reply is one to what the search waits for.
    pub open spec fn accepts(self, reply: ResolveReply) -> bool {
        match self {
            ResolvingView::Canonical(_) => reply is Canonical,
            ResolvingView::GitDir(_) => reply is Exists,
            ResolvingView::Cached(_) => reply is Cache,
            ResolvingView::Unknown(_) => reply is Exists,
        }
    }

    /// What a reply leads to.
    pub open spec fn next(self, reply: ResolveReply) -> ResolveStepView {
        match (self, reply) {
            (ResolvingView::Canonical(id), ResolveReply::Canonical(Ok(path))) => {
                ResolveStepView::Ask(
                    ResolvingView::GitDir(path@),
                    ResolveRequestView::Exists(joined_path(path@, ".git"@)),
                )
            },
            (ResolvingView::Canonical(id), ResolveReply::Canonical(Err(why))) => {
                ResolveStepView::Failed(
                    AppErrorView::General("Cannot resolve '"@ + id + "': "@ + why@),
                )
            },
            (ResolvingView::GitDir(path), ResolveReply::Exists(is_repo)) => if is_repo {
                ResolveStepView::Found(path)
            } else {
                ResolveStepView::Failed(
                    AppErrorView::General("Path '"@ + path + "' is not a git repository"@),
                )
            },
            (ResolvingView::Cached(id), ResolveReply::Cache(repos)) => {
                let matches = named(repos@, id);
                if matches.len() == 0 {
                    ResolveStepView::Ask(
                        ResolvingView::Unknown(id),
                        ResolveRequestView::Exists(joined_path(id, ".git"@)),
                    )
                } else if matches.len() == 1 {
                    ResolveStepView::Found(matches[0].path@)
                } else {
                    ResolveStepView::Failed(AppErrorView::General(choices_text(id, matches)))
                }
            },
            (ResolvingView::Unknown(id), ResolveReply::Exists(is_repo)) => if is_repo {
                ResolveStepView::Found(id)
            } else {
                ResolveStepView::Failed(
                    AppErrorView::General(
                        "No repo found matching '"@ + id
                            + "'. Run `gitatlas scan` or pass a path."@,
                    ),
                )
            },
            _ => ResolveStepView::Failed(AppErrorView::General(seq![])),
        }
    }
}

/// Starts to search for the repository that the user means.
pub fn resolve(identifier: &str, home: Option<&str>) -> (r: ResolveStep)
    ensures
        r@ == search_for(identifier@, opt_str_view(home)),
{
    if !looks_like_path(identifier) {
        return ResolveStep::Ask(
            Resolving::Cached(text::copy(identifier)),
            ResolveRequest::LoadCache,
        );
    }
    resolve_path(identifier, home)
}

/// Starts to search for the repository at a path.
pub fn resolve_path(identifier: &str, home: Option<&str>) -> (r: ResolveStep)
    ensures
        path_like(identifier@) ==> r@ == search_for(identifier@, opt_str_view(home)),
        !path_like(identifier@) ==> r@ == ResolveStepView::Ask(
            ResolvingView::Canonical(identifier@),
            ResolveRequestView::Canonicalize(identifier@),
        ),
{
    proof {
        reveal_strlit("~");
        reveal_strlit("~/");
        if "~/"@.is_prefix_of(identifier@) {
            assert("~"@.is_prefix_of(identifier@)) by {
                assert("~"@[0] == '~' && "~/"@[0] == '~');
                assert(identifier@.subrange(0, 2)[0] == identifier@[0]);
                assert(identifier@.subrange(0, 1) =~= "~"@);
            }
        }
        if identifier@ == "~"@ {
            assert("~"@.is_prefix_of(identifier@)) by {
                assert(identifier@.subrange(0, 1) =~= "~"@);
            }
        }
    }
    let id = text::copy(identifier);
    let expanded = if let Some(rest) = text::strip_prefix(identifier, "~/") {
        match home {
            Some(h) => paths::join(h, rest.as_str()),
            None => text::copy(identifier),
        }
    } else if text::same(identifier, "~") {
        match home {
            Some(h) => text::copy(h),
            None => {
                return ResolveStep::Failed(AppError::msg("Cannot resolve home directory"));
            },
        }
    } else {
        text::copy(identifier)
    };
    ResolveStep::Ask(Resolving::Canonical(id), ResolveRequest::Canonicalize(expanded))
}

/// The repositories that have a name.
fn find_named(repos: &Vec<RepoInfo>, name: &str) -> (r: Vec<RepoInfo>)
    ensures
        r@ == named(repos@, name@),
{
    let mut out: Vec<RepoInfo> = Vec::new();
    let mut i: usize = 0;
    assert(repos@.take(0) =~= seq![]);
    while i < repos.len()
        invariant
            i <= repos@.len(),
            out@ == named(repos@.take(i as int), name@),
        decreases repos@.len() - i,
    {
        assert(repos@.take(i + 1).drop_last() =~= repos@.take(i as int));
        if text::eq_ignore_ascii_case(repos[i].name.as_str(), name) {
            out.push(repos[i].clone());
        }
        i = i + 1;
    }
    assert(repos@.take(i as int) =~= repos@);
    out
}

/// What the user is told where several repositories have the name.
fn list_choices(id: &str, matches: &Vec<RepoInfo>) -> (r: String)
    ensures
        r@ == choices_text(id@, matches@),
{
    let ghost want = matches@.map_values(|r: RepoInfo| choice_line(r));
    let mut names: Vec<String> = Vec::new();
    let mut i: usize = 0;
    assert(texts(names@) =~= want.take(0));
    while i < matches.len()
        invariant
            want == matches@.map_values(|r: RepoInfo| choice_line(r)),
            i <= matches@.len(),
            texts(names@) == want.take(i as int),
        decreases matches@.len() - i,
    {
        let line = text::copy("  ").concat(matches[i].name.as_str()).concat(" (").concat(
            matches[i].path.as_str(),
        ).concat(")");
        proof {
            text::texts_push(names@, line);
            assert(want.take(i + 1) =~= want.take(i as int).push(want[i as int]));
        }
        names.push(line);
        i = i + 1;
    }
    assert(want.take(i as int) =~= want);
    let list = text::join(&names, "\n");
    text::copy("Multiple repos match '").concat(id).concat("':\n").concat(list.as_str()).concat(
        "\nSpecify the full path instead.",
    )
}

impl Resolving {
    /// Whether the reply is one to what the search waits for.
    pub fn accepts(&self, reply: &ResolveReply) -> (r: bool)
        ensures
            r == self@.accepts(*reply),
    {
        match (self, reply) {
            (Resolving::Canonical(_), ResolveReply::Canonical(_)) => true,
            (Resolving::GitDir(_), ResolveReply::Exists(_)) => true,
            (Resolving::Cached(_), ResolveReply::Cache(_)) => true,
            (Resolving::Unknown(_), ResolveReply::Exists(_)) => true,
            _ => false,
        }
    }

    /// Goes on after a reply.
    pub fn advance(self, reply: ResolveReply) -> (r: ResolveStep)
        requires
            self@.accepts(reply),
        ensures
            r@ == self@.next(reply),
    {
        match (self, reply) {
            (Resolving::Canonical(_), ResolveReply::Canonical(Ok(path))) => {
                let git_dir = paths::join(path.as_str(), ".git");
                ResolveStep::Ask(Resolving::GitDir(path), ResolveRequest::Exists(git_dir))
            },
            (Resolving::Canonical(id), ResolveReply::Canonical(Err(why))) => {
                let s = text::copy("Cannot resolve '").concat(id.as_str()).concat("': ").concat(
                    why.as_str(),
                );
                ResolveStep::Failed(AppError::msg(s.as_str()))
            },
            (Resolving::GitDir(path), ResolveReply::Exists(is_repo)) => if is_repo {
                ResolveStep::Found(path)
            } else {
                let s = text::copy("Path '").concat(path.as_str()).concat(
                    "' is not a git repository",
                );
                ResolveStep::Failed(AppError::msg(s.as_str()))
            },
            (Resolving::Cached(id), ResolveReply::Cache(repos)) => {
                let matches = find_named(&repos, id.as_str());
                if matches.len() == 0 {
                    let git_dir = paths::join(id.as_str(), ".git");
                    ResolveStep::Ask(Resolving::Unknown(id), ResolveRequest::Exists(git_dir))
                } else if matches.len() == 1 {
                    ResolveStep::Found(matches[0].path.clone())
                } else {
                    let s = list_choices(id.as_str(), &matches);
                    ResolveStep::Failed(AppError::msg(s.as_str()))
                }
            },
            (Resolving::Unknown(id), ResolveReply::Exists(is_repo)) => if is_repo {
                ResolveStep::Found(id)
            } else {
                let s = text::copy("No repo found matching '").concat(id.as_str()).concat(
                    "'. Run `gitatlas scan` or pass a path.",
                );
                ResolveStep::Failed(AppError::msg(s.as_str()))
            },
            _ => ResolveStep::Failed(AppError::msg("")),
        }
    }
}

// ── Several repositories ─────────────────

/// A repository to work on: its name and its path.
pub struct Target {
    pub name: String,
    pub path: String,
}

impl View for Target {
    type V = (Seq<char>, Seq<char>);

    open spec fn view(&self) -> (Seq<char>, Seq<char>) {
        (self.name@, self.path@)
    }
}

pub open spec fn targets_view(v: Seq<Target>) -> Seq<(Seq<char>, Seq<char>)> {
    v.map_values(|t: Target| t@)
}

/// What a search for several repositories waits for.
pub enum ResolvingMany {
    /// The known repositories, to take all of them.
    All,
    /// The repository that the identifier at the given place means.
    Each { ids: Vec<String>, at: usize, found: Vec<Target>, search: Resolving },
}

pub enum ResolvingManyView {
    All,
    Each {
        ids: Seq<Seq<char>>,
        at: int,
        found: Seq<(Seq<char>, Seq<char>)>,
        search: ResolvingView,
    },
}

impl View for ResolvingMany {
    type V = ResolvingManyView;

    open spec fn view(&self) -> ResolvingManyView {
        match self {
            ResolvingMany::All => ResolvingManyView::All,
            ResolvingMany::Each { ids, at, found, search } => ResolvingManyView::Each {
                ids: texts(ids@),
                at: *at as int,
                found: targets_view(found@),
                search: search@,
            },
        }
    }
}

pub enum ManyStep {
    Ask(ResolvingMany, ResolveRequest),
    Found(Vec<Target>),
    Failed(AppError),
}

pub enum ManyStepView {
    Ask(ResolvingManyView, ResolveRequestView),
    Found(Seq<(Seq<char>, Seq<char>)>),
    Failed(AppErrorView),
}

impl View for ManyStep {
    type V = ManyStepView;

    open spec fn view(&self) -> ManyStepView {
        match self {
            ManyStep::Ask(s, r) => ManyStepView::Ask(s@, r@),
            ManyStep::Found(v) => ManyStepView::Found(targets_view(v@)),
            ManyStep::Failed(e) => ManyStepView::Failed(e@),
        }
    }
}

/// What is called what it is found at: by the last part of its path, or by
/// the identifier where the path has none.
pub open spec fn target_at(id: Seq<char>, path: Seq<char>) -> (Seq<char>, Seq<char>) {
    (
        match file_name_of(path) {
            Some(n) => n,
            None => id,
        },
        path,
    )
}

/// The search goes on with the identifier at `at`, where there is one.
pub open spec fn search_from(
    ids: Seq<Seq<char>>,
    at: int,
    found: Seq<(Seq<char>, Seq<char>)>,
    home: Option<Seq<char>>,
) -> ManyStepView {
    if at >= ids.len() {
        ManyStepView::Found(found)
    } else {
        after_search(ids, at, found, search_for(ids[at], home))
    }
}

/// The search for the identifier at `at` has come to a step that does not
/// find it yet.
pub open spec fn after_search(
    ids: Seq<Seq<char>>,
    at: int,
    found: Seq<(Seq<char>, Seq<char>)>,
    step: ResolveStepView,
) -> ManyStepView {
    match step {
        ResolveStepView::Ask(search, request) => ManyStepView::Ask(
            ResolvingManyView::Each { ids, at, found, search },
            request,
        ),
        ResolveStepView::Failed(e) => ManyStepView::Failed(e),
        ResolveStepView::Found(_) => ManyStepView::Found(found),
    }
}

/// How a search for several repositories starts: for all known ones, or for
/// each identifier in turn.
pub open spec fn search_many(ids: Seq<Seq<char>>, all: bool, home: Option<Seq<char>>) -> ManyStepView {
    if all {
        ManyStepView::Ask(ResolvingManyView::All, ResolveRequestView::LoadCache)
    } else if ids.len() == 0 {
        ManyStepView::Failed(
            AppErrorView::General("Specify one or more repos, or pass --all."@),
        )
    } else {
        search_from(ids, 0, seq![], home)
    }
}

pub open spec fn all_targets(repos: Seq<RepoInfo>) -> Seq<(Seq<char>, Seq<char>)> {
    repos.map_values(|r: RepoInfo| (r.name@, r.path@))
}

impl ResolvingManyView {
    pub open spec fn accepts(self, reply: ResolveReply) -> bool {
        match self {
            ResolvingManyView::All => reply is Cache,
            ResolvingManyView::Each { ids, at, found, search } => 0 <= at < ids.len()
                && search.accepts(reply),
        }
    }

    pub open spec fn next(self, reply: ResolveReply, home: Option<Seq<char>>) -> ManyStepView {
        match self {
            ResolvingManyView::All => match reply {
                ResolveReply::Cache(repos) => if repos@.len() == 0 {
                    ManyStepView::Failed(
                        AppErrorView::General("Cache is empty. Run `gitatlas scan` first."@),
                    )
                } else {
                    ManyStepView::Found(all_targets(repos@))
                },
                _ => ManyStepView::Failed(AppErrorView::General(seq![])),
            },
            ResolvingManyView::Each { ids, at, found, search } => match search.next(reply) {
                ResolveStepView::Found(path) => search_from(
                    ids,
                    at + 1,
                    found.push(target_at(ids[at], path)),
                    home,
                ),
                step => after_search(ids, at, found, step),
            },
        }
    }
}

fn go_on(ids: Vec<String>, at: usize, found: Vec<Target>, home: Option<&str>) -> (r: ManyStep)
    ensures
        r@ == search_from(
            texts(ids@),
            at as int,
            targets_view(found@),
            opt_str_view(home),
        ),
{
    if at >= ids.len() {
        return ManyStep::Found(found);
    }
    assert(texts(ids@)[at as int] == ids@[at as int]@);
    match resolve(ids[at].as_str(), home) {
        ResolveStep::Ask(search, request) => ManyStep::Ask(
            ResolvingMany::Each { ids, at, found, search },
            request,
        ),
        ResolveStep::Failed(e) => ManyStep::Failed(e),
        ResolveStep::Found(_) => ManyStep::Found(found),
    }
}

/// Starts to search for the repositories that the user means.
pub fn resolve_many(identifiers: Vec<String>, all: bool, home: Option<&str>) -> (r: ManyStep)
    ensures
        r@ == search_many(texts(identifiers@), all, opt_str_view(home)),
{
    if all {
        return ManyStep::Ask(ResolvingMany::All, ResolveRequest::LoadCache);
    }
    if identifiers.len() == 0 {
        return ManyStep::Failed(AppError::msg("Specify one or more repos, or pass --all."));
    }
    let found: Vec<Target> = Vec::new();
    assert(targets_view(found@) =~= seq![]);
    go_on(identifiers, 0, found, home)
}

/// All known repositories, to work on.
pub fn every_target(repos: &Vec<RepoInfo>) -> (r: Vec<Target>)
    ensures
        targets_view(r@) == all_targets(repos@),
{
    let ghost want = all_targets(repos@);
    let mut out: Vec<Target> = Vec::new();
    let mut i: usize = 0;
    assert(targets_view(out@) =~= want.take(0));
    while i < repos.len()
        invariant
            want == all_targets(repos@),
            i <= repos@.len(),
            targets_view(out@) == want.take(i as int),
        decreases repos@.len() - i,
    {
        let ghost before = targets_view(out@);
        let t = Target { name: repos[i].name.clone(), path: repos[i].path.clone() };
        out.push(t);
        assert(targets_view(out@) =~= before.push(t@));
        assert(want.take(i + 1) =~= want.take(i as int).push(want[i as int]));
        i = i + 1;
    }
    assert(want.take(i as int) =~= want);
    out
}

impl ResolvingMany {
    /// Whether the reply is one to what the search waits for.
    pub fn accepts(&self, reply: &ResolveReply) -> (r: bool)
        ensures
            r == self@.accepts(*reply),
    {
        match self {
            ResolvingMany::All => match reply {
                ResolveReply::Cache(_) => true,
                _ => false,
            },
            ResolvingMany::Each { ids, at, found: _, search } => *at < ids.len()
                && search.accepts(reply),
        }
    }

    /// Goes on after a reply.
    pub fn advance(self, reply: ResolveReply, home: Option<&str>) -> (r: ManyStep)
        requires
            self@.accepts(reply),
        ensures
            r@ == self@.next(reply, opt_str_view(home)),
    {
        match self {
            ResolvingMany::All => match reply {
                ResolveReply::Cache(repos) => if repos.len() == 0 {
                    ManyStep::Failed(AppError::msg("Cache is empty. Run `gitatlas scan` first."))
                } else {
                    ManyStep::Found(every_target(&repos))
                },
                _ => ManyStep::Failed(AppError::msg("")),
            },
            ResolvingMany::Each { ids, at, found, search } => match search.advance(reply) {
                ResolveStep::Found(path) => {
                    assert(texts(ids@)[at as int] == ids@[at as int]@);
                    let count: usize = ids.len();
                    assert(at < count);
                    let name = match paths::file_name(path.as_str()) {
                        Some(n) => n,
                        None => ids[at].clone(),
                    };
                    let mut found = found;
                    let ghost before = targets_view(found@);
                    let t = Target { name, path };
                    found.push(t);
                    assert(targets_view(found@) =~= before.push(t@));
                    go_on(ids, at + 1, found, home)
                },
                ResolveStep::Ask(search, request) => ManyStep::Ask(
                    ResolvingMany::Each { ids, at, found, search },
                    request,
                ),
                ResolveStep::Failed(e) => ManyStep::Failed(e),
            },
        }
    }
}

// ── Laws ─────────────────────────────────

/// How many replies a search still waits for, at most.
pub open spec fn replies_to_find(s: ResolvingView) -> nat {
    match s {
        ResolvingView::Canonical(_) => 2,
        ResolvingView::GitDir(_) => 1,
        ResolvingView::Cached(_) => 2,
        ResolvingView::Unknown(_) => 1,
    }
}

/// A search comes closer to its end with every reply.
pub proof fn a_search_ends(s: ResolvingView, reply: ResolveReply)
    requires
        s.accepts(reply),
    ensures
        s.next(reply) matches ResolveStepView::Ask(t, _) ==> replies_to_find(t)
            < replies_to_find(s),
{
}

/// How many replies a search for several repositories still waits for, at
/// most.
pub open spec fn replies_to_find_many(s: ResolvingManyView) -> nat {
    match s {
        ResolvingManyView::All => 1,
        ResolvingManyView::Each { ids, at, found, search } => (2 * (ids.len() - at) as nat
            + replies_to_find(search)) as nat,
    }
}

/// A search for several repositories comes closer to its end with every
/// reply.
pub proof fn a_search_for_many_ends(
    s: ResolvingManyView,
    reply: ResolveReply,
    home: Option<Seq<char>>,
)
    requires
        s.accepts(reply),
    ensures
        s.next(reply, home) matches ManyStepView::Ask(t, _) ==> replies_to_find_many(t)
            < replies_to_find_many(s),
{
}

/// How many replies a step of a search still waits for, at most.
pub open spec fn replies_after(step: ResolveStepView) -> nat {
    match step {
        ResolveStepView::Ask(s, _) => replies_to_find(s),
        _ => 0,
    }
}

/// What a search comes to where each request is answered as `world` says.
pub open spec fn searched(
    step: ResolveStepView,
    world: spec_fn(ResolveRequestView) -> ResolveReply,
) -> Result<Seq<char>, AppErrorView>
    decreases replies_after(step),
{
    match step {
        ResolveStepView::Ask(s, request) => searched(s.next(world(request)), world),
        ResolveStepView::Found(path) => Ok(path),
        ResolveStepView::Failed(e) => Err(e),
    }
}

/// How many replies a step of a search for several repositories still waits
/// for, at most.
pub open spec fn replies_after_many(step: ManyStepView) -> nat {
    match step {
        ManyStepView::Ask(s, _) => replies_to_find_many(s),
        _ => 0,
    }
}

/// What a search for several repositories comes to where each request is
/// answered as `world` says.
pub open spec fn searched_many(
    step: ManyStepView,
    world: spec_fn(ResolveRequestView) -> ResolveReply,
    home: Option<Seq<char>>,
) -> Result<Seq<(Seq<char>, Seq<char>)>, AppErrorView>
    decreases replies_after_many(step),
{
    match step {
        ManyStepView::Ask(s, request) => searched_many(s.next(world(request), home), world, home),
        ManyStepView::Found(v) => Ok(v),
        ManyStepView::Failed(e) => Err(e),
    }
}

/// What the search for one repository comes to, as a target.
pub open spec fn found_alone(
    id: Seq<char>,
    world: spec_fn(ResolveRequestView) -> ResolveReply,
    home: Option<Seq<char>>,
) -> Result<(Seq<char>, Seq<char>), AppErrorView> {
    match searched(search_for(id, home), world) {
        Ok(path) => Ok(target_at(id, path)),
        Err(e) => Err(e),
    }
}

/// All of some results, or the first error among them.
pub open spec fn all_or_first_error<T, E>(v: Seq<Result<T, E>>) -> Result<Seq<T>, E>
    decreases v.len(),
{
    if v.len() == 0 {
        Ok(seq![])
    } else {
        match all_or_first_error(v.drop_last()) {
            Ok(before) => match v.last() {
                Ok(x) => Ok(before.push(x)),
                Err(e) => Err(e),
            },
            Err(e) => Err(e),
        }
    }
}

/// Where there is no error, the values of all results are there in their
/// order; otherwise it is the error that no other one stands before.
pub proof fn first_error_decides<T, E>(v: Seq<Result<T, E>>)
    ensures
        match all_or_first_error(v) {
            Ok(all) => {
                &&& all.len() == v.len()
                &&& forall|i: int| 0 <= i < v.len() ==> #[trigger] v[i] == Ok::<T, E>(all[i])
            },
            Err(e) => exists|k: int|
                {
                    &&& 0 <= k < v.len()
                    &&& #[trigger] v[k] == Err::<T, E>(e)
                    &&& forall|i: int| 0 <= i < k ==> (#[trigger] v[i]) is Ok
                },
        },
    decreases v.len(),
{
    if v.len() > 0 {
        let w = v.drop_last();
        first_error_decides(w);
        match all_or_first_error(w) {
            Ok(before) => {
                assert forall|i: int| 0 <= i < w.len() implies #[trigger] v[i] == Ok::<T, E>(
                    before[i],
                ) by {
                    assert(w[i] == v[i]);
                }
                assert(v[v.len() - 1] == v.last());
            },
            Err(e) => {
                let k = choose|k: int|
                    {
                        &&& 0 <= k < w.len()
                        &&& #[trigger] w[k] == Err::<T, E>(e)
                        &&& forall|i: int| 0 <= i < k ==> (#[trigger] w[i]) is Ok
                    };
                assert(v[k] == Err::<T, E>(e));
                assert forall|i: int| 0 <= i < k implies (#[trigger] v[i]) is Ok by {
                    assert(w[i] is Ok);
                }
            },
        }
    }
}

proof fn an_error_stays<T, E>(v: Seq<Result<T, E>>, n: int)
    requires
        0 <= n <= v.len(),
        all_or_first_error(v.take(n)) is Err,
    ensures
        all_or_first_error(v) == all_or_first_error(v.take(n)),
    decreases v.len() - n,
{
    if n < v.len() {
        assert(v.take(n + 1).drop_last() =~= v.take(n));
        an_error_stays(v, n + 1);
    } else {
        assert(v.take(n) =~= v);
    }
}

/// What the searches for each of some repositories come to.
pub open spec fn each_alone(
    ids: Seq<Seq<char>>,
    world: spec_fn(ResolveRequestView) -> ResolveReply,
    home: Option<Seq<char>>,
) -> Seq<Result<(Seq<char>, Seq<char>), AppErrorView>> {
    ids.map_values(|id: Seq<char>| found_alone(id, world, home))
}

/// A search for several repositories gives what the searches for each of them
/// give, in their order; where one of those fails, the first failure.
pub proof fn many_are_found_one_by_one(
    ids: Seq<Seq<char>>,
    world: spec_fn(ResolveRequestView) -> ResolveReply,
    home: Option<Seq<char>>,
)
    requires
        ids.len() > 0,
    ensures
        searched_many(search_many(ids, false, home), world, home) == all_or_first_error(
            each_alone(ids, world, home),
        ),
{
    assert(each_alone(ids, world, home).take(0) =~= seq![]);
    many_from(ids, 0, seq![], world, home);
}

/// The rest of a search for several repositories.
proof fn many_from(
    ids: Seq<Seq<char>>,
    at: int,
    found: Seq<(Seq<char>, Seq<char>)>,
    world: spec_fn(ResolveRequestView) -> ResolveReply,
    home: Option<Seq<char>>,
)
    requires
        0 <= at <= ids.len(),
        all_or_first_error(each_alone(ids, world, home).take(at)) == Ok::<
            Seq<(Seq<char>, Seq<char>)>,
            AppErrorView,
        >(found),
    ensures
        searched_many(search_from(ids, at, found, home), world, home) == all_or_first_error(
            each_alone(ids, world, home),
        ),
    decreases ids.len() - at,
{
    let each = each_alone(ids, world, home);
    if at < ids.len() {
        let step = search_for(ids[at], home);
        one_of_many(ids, at, found, step, world, home);
        assert(each.take(at + 1).drop_last() =~= each.take(at));
        assert(each.take(at + 1).last() == found_alone(ids[at], world, home));
        match searched(step, world) {
            Ok(path) => {
                many_from(ids, at + 1, found.push(target_at(ids[at], path)), world, home);
            },
            Err(_) => {
                an_error_stays(each, at + 1);
            },
        }
    } else {
        assert(each.take(at) =~= each);
    }
}

/// The search for one of several repositories runs as it does alone.
proof fn one_of_many(
    ids: Seq<Seq<char>>,
    at: int,
    found: Seq<(Seq<char>, Seq<char>)>,
    step: ResolveStepView,
    world: spec_fn(ResolveRequestView) -> ResolveReply,
    home: Option<Seq<char>>,
)
    requires
        !(step is Found),
    ensures
        searched_many(after_search(ids, at, found, step), world, home) == match searched(
            step,
            world,
        ) {
            Ok(path) => searched_many(
                search_from(ids, at + 1, found.push(target_at(ids[at], path)), home),
                world,
                home,
            ),
            Err(e) => Err(e),
        },
    decreases replies_after(step),
{
    match step {
        ResolveStepView::Ask(s, request) => {
            let next = s.next(world(request));
            if !(next is Found) {
                one_of_many(ids, at, found, next, world, home);
            }
        },
        _ => {},
    }
}

/// A name that exactly one known repository has finds that repository, in
/// whatever case it is written.
pub proof fn a_unique_name_finds_its_repo(id: Seq<char>, written: Seq<char>, repos: Vec<RepoInfo>)
    requires
        ascii_lowercase(id) == ascii_lowercase(written),
        named(repos@, id).len() == 1,
    ensures
        ResolvingView::Cached(written).next(ResolveReply::Cache(repos))
            == ResolveStepView::Found(named(repos@, id)[0].path@),
{
    names_ignore_case(repos@, id, written);
}

proof fn names_ignore_case(repos: Seq<RepoInfo>, a: Seq<char>, b: Seq<char>)
    requires
        ascii_lowercase(a) == ascii_lowercase(b),
    ensures
        named(repos, a) == named(repos, b),
    decreases repos.len(),
{
    if repos.len() > 0 {
        names_ignore_case(repos.drop_last(), a, b);
    }
}

/// A path that is given as such is a repository where it holds `.git`, and
/// is refused where it does not.
pub proof fn a_path_needs_a_git_dir(id: Seq<char>, path: String, is_repo: bool)
    ensures
        ({
            let asked = ResolvingView::Canonical(id).next(ResolveReply::Canonical(Ok(path)));
            &&& asked == ResolveStepView::Ask(
                ResolvingView::GitDir(path@),
                ResolveRequestView::Exists(joined_path(path@, ".git"@)),
            )
            &&& ResolvingView::GitDir(path@).next(ResolveReply::Exists(is_repo)) == if is_repo {
                ResolveStepView::Found(path@)
            } else {
                ResolveStepView::Failed(
                    AppErrorView::General("Path '"@ + path@ + "' is not a git repository"@),
                )
            }
        }),
{
}

} // verus!
