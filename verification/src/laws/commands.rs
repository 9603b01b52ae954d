//! What each command does, from its arguments to what is asked for, said and
//! kept.
use vstd::prelude::*;
use vstd::string::*;

use crate::cache::{place_is_first, Config};
use crate::cli::{BranchAction, Command, ConfigAction, ListArgs, RemoteAction, RootsAction,
    StashAction};
use crate::error::{AppError, AppErrorView};
use crate::handlers::{accepted, after_many, after_resolve, command_start, is_listed, listing,
    move_after, refreshed_with, Job, MoveView, Reply, Request, RequestView, Step, StepView,
    WaitView};
use crate::models::{BranchInfo, CommitFileChange, CommitInfo, FileChange, GitProfile, RemoteInfo,
    RepoHealth, RepoInfo, StashEntry};
use crate::report::{BulkResultView, DataView, NoticeView, Op, SayView};
use crate::resolver::{replies_to_find, replies_to_find_many, search_for, search_many, searched,
    searched_many, ManyStepView, ResolveReply, ResolveRequestView, ResolveStepView};
use crate::text::{decimal_of, lowercase, texts};

verus! {

// ── The search for repositories ──────────

/// How many replies a command still waits for before it knows what its
/// repositories are, at most.
pub open spec fn search_left(w: WaitView) -> nat {
    match w {
        WaitView::Resolving(s, _) => replies_to_find(s),
        WaitView::ResolvingMany(_, s) => replies_to_find_many(s),
        _ => 0,
    }
}

/// Where a command has come once it knows what its repositories are, or that
/// it cannot find them, where `world` answers its search.
pub open spec fn after_search(
    json: bool,
    m: MoveView,
    world: spec_fn(ResolveRequestView) -> ResolveReply,
    home: Option<Seq<char>>,
) -> MoveView
    decreases search_left(m.wait),
{
    if m.wait is Resolving || m.wait is ResolvingMany {
        match m.step {
            StepView::Ask(RequestView::Resolve(q)) => after_search(
                json,
                move_after(json, m.wait, Reply::Resolve(world(q)), home),
                world,
                home,
            ),
            _ => m,
        }
    } else {
        m
    }
}

/// A command, once its repositories are found.
pub open spec fn found(
    json: bool,
    c: Command,
    world: spec_fn(ResolveRequestView) -> ResolveReply,
    home: Option<Seq<char>>,
) -> MoveView {
    after_search(json, command_start(json, c, home), world, home)
}

/// The repository that a command names.
pub open spec fn repo_of(c: Command) -> Option<Seq<char>> {
    match c {
        Command::Status(a) => Some(a.repo@),
        Command::Push(a) => Some(a.repo@),
        Command::Log(a) => Some(a.repo@),
        Command::Show(a) => Some(a.repo@),
        Command::Diff(a) => Some(a.repo@),
        Command::Add(a) => Some(a.repo@),
        Command::Reset(a) => Some(a.repo@),
        Command::Commit(a) => Some(a.repo@),
        Command::Squash(a) => Some(a.repo@),
        Command::Branch(a) => Some(a.repo@),
        Command::Stash(a) => Some(a.repo@),
        Command::Remote(a) => Some(a.repo@),
        Command::Profile(a) => Some(a.repo@),
        Command::Readme(a) => Some(a.repo@),
        Command::Pr(a) => Some(a.repo@),
        _ => None,
    }
}

/// The command names one repository, and the search for it finds it at `path`.
pub open spec fn is_at(
    c: Command,
    path: Seq<char>,
    world: spec_fn(ResolveRequestView) -> ResolveReply,
    home: Option<Seq<char>>,
) -> bool {
    &&& repo_of(c) is Some
    &&& searched(search_for(repo_of(c).unwrap(), home), world) == Ok::<Seq<char>, AppErrorView>(path)
}

proof fn a_search_leads_to_its_job(
    json: bool,
    job: Job,
    step: ResolveStepView,
    world: spec_fn(ResolveRequestView) -> ResolveReply,
    home: Option<Seq<char>>,
)
    ensures
        after_search(json, after_resolve(job, step), world, home) == after_resolve(
            job,
            match searched(step, world) {
                Ok(path) => ResolveStepView::Found(path),
                Err(e) => ResolveStepView::Failed(e),
            },
        ),
    decreases
            match step {
                ResolveStepView::Ask(s, _) => replies_to_find(s),
                _ => 0,
            },
{
    match step {
        ResolveStepView::Ask(s, q) => {
            a_search_leads_to_its_job(json, job, s.next(world(q)), world, home);
        },
        _ => {},
    }
}

proof fn a_command_finds_its_repo(
    json: bool,
    c: Command,
    world: spec_fn(ResolveRequestView) -> ResolveReply,
    home: Option<Seq<char>>,
)
    requires
        repo_of(c) is Some,
    ensures
        ({
            let job = crate::handlers::job_of(c).unwrap().1;
            found(json, c, world, home) == after_resolve(
                job,
                match searched(search_for(repo_of(c).unwrap(), home), world) {
                    Ok(path) => ResolveStepView::Found(path),
                    Err(e) => ResolveStepView::Failed(e),
                },
            )
        }),
{
    let job = crate::handlers::job_of(c).unwrap().1;
    a_search_leads_to_its_job(json, job, search_for(repo_of(c).unwrap(), home), world, home);
}

/// A command whose repository cannot be found fails with the reason, and asks
/// for nothing and says nothing.
pub proof fn an_unknown_repo_ends_the_command(
    json: bool,
    c: Command,
    world: spec_fn(ResolveRequestView) -> ResolveReply,
    home: Option<Seq<char>>,
    e: AppErrorView,
)
    requires
        repo_of(c) is Some,
        searched(search_for(repo_of(c).unwrap(), home), world) == Err::<Seq<char>, AppErrorView>(e),
    ensures
        found(json, c, world, home).step == StepView::Failed(e),
        found(json, c, world, home).says.len() == 0,
{
    a_command_finds_its_repo(json, c, world, home);
}

// ── What is shown ────────────────────────

/// The command ends, and shows exactly these data: as JSON where that was
/// asked for, and as text otherwise.
pub open spec fn shows(m: MoveView, json: bool, d: DataView) -> bool {
    &&& m.step is Done
    &&& m.says == seq![
        if json {
            SayView::Json(d)
        } else {
            SayView::Text(d)
        },
    ]
}

/// What a reply to a move leads to.
pub open spec fn replied(json: bool, m: MoveView, reply: Reply, home: Option<Seq<char>>) -> MoveView {
    move_after(json, m.wait, reply, home)
}

/// The move asks for one thing, and nothing is said with it.
pub open spec fn asks(m: MoveView, r: RequestView) -> bool {
    m.step == StepView::Ask(r) && m.says.len() == 0
}

// ── Reading ──────────────────────────────

/// A status reads the state of its repository and shows it.
pub proof fn a_status_shows_the_state(
    json: bool,
    c: Command,
    path: Seq<char>,
    info: RepoInfo,
    world: spec_fn(ResolveRequestView) -> ResolveReply,
    home: Option<Seq<char>>,
)
    requires
        c is Status,
        is_at(c, path, world, home),
    ensures
        ({
            let m = found(json, c, world, home);
            &&& asks(m, RequestView::Info(path))
            &&& accepted(m.wait, Reply::Repo(info))
            &&& shows(replied(json, m, Reply::Repo(info), home), json, DataView::Repo(info))
        }),
{
    a_command_finds_its_repo(json, c, world, home);
}

/// A log reads as many commits as were asked for, of one file where one is
/// named, and shows what was read.
pub proof fn a_log_shows_commits(
    json: bool,
    c: Command,
    path: Seq<char>,
    commits: Vec<CommitInfo>,
    world: spec_fn(ResolveRequestView) -> ResolveReply,
    home: Option<Seq<char>>,
)
    requires
        c is Log,
        is_at(c, path, world, home),
    ensures
        ({
            let m = found(json, c, world, home);
            &&& c matches Command::Log(a) && match a.file {
                Some(f) => asks(
                    m,
                    RequestView::FileHistory { path, file: f@, count: a.count },
                ),
                None => asks(m, RequestView::Log { path, count: a.count }),
            }
            &&& accepted(m.wait, Reply::Commits(commits))
            &&& shows(
                replied(json, m, Reply::Commits(commits), home),
                json,
                DataView::Commits(commits@),
            )
        }),
{
    a_command_finds_its_repo(json, c, world, home);
}

/// A commit is shown with its files and its changes.
pub proof fn a_commit_is_shown_whole(
    json: bool,
    c: Command,
    path: Seq<char>,
    files: Vec<CommitFileChange>,
    diff: String,
    world: spec_fn(ResolveRequestView) -> ResolveReply,
    home: Option<Seq<char>>,
)
    requires
        c is Show,
        is_at(c, path, world, home),
    ensures
        ({
            let m = found(json, c, world, home);
            let n = replied(json, m, Reply::Files(files), home);
            &&& c matches Command::Show(a)
            &&& asks(m, RequestView::CommitFiles { path, commit: a.commit@ })
            &&& accepted(m.wait, Reply::Files(files))
            &&& asks(n, RequestView::CommitDiff { path, commit: a.commit@ })
            &&& accepted(n.wait, Reply::Text(diff))
            &&& shows(
                replied(json, n, Reply::Text(diff), home),
                json,
                DataView::Commit { commit: a.commit@, files: files@, diff: diff@ },
            )
        }),
{
    a_command_finds_its_repo(json, c, world, home);
}

/// A diff is of the index where that was asked for and of the working tree
/// otherwise, of one file where one is named, and is shown as it was read.
pub proof fn a_diff_shows_changes(
    json: bool,
    c: Command,
    path: Seq<char>,
    diff: String,
    world: spec_fn(ResolveRequestView) -> ResolveReply,
    home: Option<Seq<char>>,
)
    requires
        c is Diff,
        is_at(c, path, world, home),
    ensures
        ({
            let m = found(json, c, world, home);
            &&& c matches Command::Diff(a) && match a.path {
                Some(f) => asks(
                    m,
                    RequestView::FileDiff { path, file: f@, staged: a.staged },
                ),
                None => asks(m, RequestView::WorkdirDiff { path, staged: a.staged }),
            }
            &&& accepted(m.wait, Reply::Text(diff))
            &&& shows(replied(json, m, Reply::Text(diff), home), json, DataView::Diff(diff@))
        }),
{
    a_command_finds_its_repo(json, c, world, home);
}

/// The readme file is shown as it was read.
pub proof fn a_readme_is_shown(
    json: bool,
    c: Command,
    path: Seq<char>,
    readme: Option<String>,
    world: spec_fn(ResolveRequestView) -> ResolveReply,
    home: Option<Seq<char>>,
)
    requires
        c is Readme,
        is_at(c, path, world, home),
    ensures
        ({
            let m = found(json, c, world, home);
            &&& asks(m, RequestView::Readme(path))
            &&& accepted(m.wait, Reply::Readme(readme))
            &&& shows(
                replied(json, m, Reply::Readme(readme), home),
                json,
                DataView::Readme(
                    match readme {
                        Some(s) => Some(s@),
                        None => None,
                    },
                ),
            )
        }),
{
    a_command_finds_its_repo(json, c, world, home);
}

/// The page for a pull request is shown as it was read.
pub proof fn a_page_is_shown(
    json: bool,
    c: Command,
    path: Seq<char>,
    url: String,
    world: spec_fn(ResolveRequestView) -> ResolveReply,
    home: Option<Seq<char>>,
)
    requires
        c is Pr,
        is_at(c, path, world, home),
    ensures
        ({
            let m = found(json, c, world, home);
            &&& asks(m, RequestView::Page(path))
            &&& accepted(m.wait, Reply::Text(url))
            &&& shows(replied(json, m, Reply::Text(url), home), json, DataView::Page(url@))
        }),
{
    a_command_finds_its_repo(json, c, world, home);
}

// ── Changing ─────────────────────────────

/// Files are staged by `add` and unstaged by `reset`: those that were named,
/// or all of them. What has changed is then read and shown. Without files and
/// without `--all` nothing is touched.
pub proof fn files_are_staged_as_named(
    json: bool,
    c: Command,
    path: Seq<char>,
    changes: Vec<FileChange>,
    world: spec_fn(ResolveRequestView) -> ResolveReply,
    home: Option<Seq<char>>,
)
    requires
        c is Add || c is Reset,
        is_at(c, path, world, home),
    ensures
        ({
            let m = found(json, c, world, home);
            let n = replied(json, m, Reply::Done, home);
            let args = match c {
                Command::Add(a) => a,
                Command::Reset(a) => a,
                _ => arbitrary(),
            };
            &&& args.all && c is Add ==> asks(m, RequestView::StageAll(path))
            &&& args.all && c is Reset ==> asks(m, RequestView::UnstageAll(path))
            &&& !args.all && args.paths@.len() > 0 && c is Add ==> asks(
                m,
                RequestView::StageFiles { path, files: texts(args.paths@) },
            )
            &&& !args.all && args.paths@.len() > 0 && c is Reset ==> asks(
                m,
                RequestView::UnstageFiles { path, files: texts(args.paths@) },
            )
            &&& !args.all && args.paths@.len() == 0 ==> m.step == StepView::Failed(
                AppErrorView::General("Specify file paths, or pass --all"@),
            )
            &&& args.all || args.paths@.len() > 0 ==> {
                &&& accepted(m.wait, Reply::Done)
                &&& asks(n, RequestView::Changes(path))
                &&& accepted(n.wait, Reply::Changes(changes))
                &&& shows(
                    replied(json, n, Reply::Changes(changes), home),
                    json,
                    DataView::Changes(changes@),
                )
            }
        }),
{
    a_command_finds_its_repo(json, c, world, home);
}

/// A commit is made with the message that was given, and its id is told.
pub proof fn a_commit_has_its_message(
    json: bool,
    c: Command,
    path: Seq<char>,
    oid: String,
    world: spec_fn(ResolveRequestView) -> ResolveReply,
    home: Option<Seq<char>>,
)
    requires
        c is Commit,
        is_at(c, path, world, home),
    ensures
        ({
            let m = found(json, c, world, home);
            &&& c matches Command::Commit(a)
            &&& asks(m, RequestView::Commit { path, message: a.message@ })
            &&& accepted(m.wait, Reply::Text(oid))
            &&& shows(
                replied(json, m, Reply::Text(oid), home),
                json,
                DataView::Committed { oid: oid@, message: a.message@ },
            )
        }),
{
    a_command_finds_its_repo(json, c, world, home);
}

/// As many commits as were asked for are squashed into one with the message
/// that was given, and its id is told.
pub proof fn a_squash_is_of_its_count(
    json: bool,
    c: Command,
    path: Seq<char>,
    oid: String,
    world: spec_fn(ResolveRequestView) -> ResolveReply,
    home: Option<Seq<char>>,
)
    requires
        c is Squash,
        is_at(c, path, world, home),
    ensures
        ({
            let m = found(json, c, world, home);
            &&& c matches Command::Squash(a)
            &&& asks(
                m,
                RequestView::Squash { path, count: a.count, message: a.message@ },
            )
            &&& accepted(m.wait, Reply::Text(oid))
            &&& shows(
                replied(json, m, Reply::Text(oid), home),
                json,
                DataView::Squashed { oid: oid@, count: a.count },
            )
        }),
{
    a_command_finds_its_repo(json, c, world, home);
}

/// Branches are listed, created, checked out, deleted and merged as was asked
/// for, under the name that was given; what was done is told once it is done.
pub proof fn branches_are_managed_by_name(
    json: bool,
    c: Command,
    path: Seq<char>,
    branches: Vec<BranchInfo>,
    outcome: String,
    world: spec_fn(ResolveRequestView) -> ResolveReply,
    home: Option<Seq<char>>,
)
    requires
        c is Branch,
        is_at(c, path, world, home),
    ensures
        ({
            let m = found(json, c, world, home);
            let done = replied(json, m, Reply::Done, home);
            let did = |what: Seq<char>, name: Seq<char>|
                accepted(m.wait, Reply::Done) && shows(
                    done,
                    json,
                    DataView::Did { what, rest: " "@ + name },
                );
            &&& c matches Command::Branch(a) && match a.action {
                Some(BranchAction::Create { name }) => asks(
                    m,
                    RequestView::CreateBranch { path, name: name@ },
                ) && did("created branch"@, name@),
                Some(BranchAction::Checkout { name }) => asks(
                    m,
                    RequestView::Checkout { path, name: name@ },
                ) && did("checked out"@, name@),
                Some(BranchAction::Delete { name }) => asks(
                    m,
                    RequestView::DeleteBranch { path, name: name@ },
                ) && did("deleted"@, name@),
                Some(BranchAction::Merge { name }) => {
                    &&& asks(m, RequestView::Merge { path, name: name@ })
                    &&& accepted(m.wait, Reply::Text(outcome))
                    &&& shows(
                        replied(json, m, Reply::Text(outcome), home),
                        json,
                        DataView::Did {
                            what: "merge"@,
                            rest: " "@ + name@ + ": "@ + outcome@,
                        },
                    )
                },
                _ => {
                    &&& asks(m, RequestView::Branches(path))
                    &&& accepted(m.wait, Reply::Branches(branches))
                    &&& shows(
                        replied(json, m, Reply::Branches(branches), home),
                        json,
                        DataView::Branches(branches@),
                    )
                },
            }
        }),
{
    a_command_finds_its_repo(json, c, world, home);
}

/// Stashes are listed, saved, popped and dropped as was asked for, each by its
/// number; what was done is told once it is done.
pub proof fn stashes_are_managed_by_number(
    json: bool,
    c: Command,
    path: Seq<char>,
    stashes: Vec<StashEntry>,
    world: spec_fn(ResolveRequestView) -> ResolveReply,
    home: Option<Seq<char>>,
)
    requires
        c is Stash,
        is_at(c, path, world, home),
    ensures
        ({
            let m = found(json, c, world, home);
            let done = replied(json, m, Reply::Done, home);
            let did = |what: Seq<char>, rest: Seq<char>|
                accepted(m.wait, Reply::Done) && shows(done, json, DataView::Did { what, rest });
            let entry = |i: usize| " stash@{"@ + decimal_of(i as nat) + "}"@;
            &&& c matches Command::Stash(a) && match a.action {
                Some(StashAction::Save { message }) => asks(
                    m,
                    RequestView::StashSave { path, message: message@ },
                ) && did("stash saved"@, ""@),
                Some(StashAction::Pop { index }) => asks(
                    m,
                    RequestView::StashPop { path, index },
                ) && did("popped"@, entry(index)),
                Some(StashAction::Drop { index }) => asks(
                    m,
                    RequestView::StashDrop { path, index },
                ) && did("dropped"@, entry(index)),
                _ => {
                    &&& asks(m, RequestView::Stashes(path))
                    &&& accepted(m.wait, Reply::Stashes(stashes))
                    &&& shows(
                        replied(json, m, Reply::Stashes(stashes), home),
                        json,
                        DataView::Stashes(stashes@),
                    )
                },
            }
        }),
{
    a_command_finds_its_repo(json, c, world, home);
}

/// Remotes are listed, added, removed and renamed as was asked for, under the
/// names and the address that were given.
pub proof fn remotes_are_managed_by_name(
    json: bool,
    c: Command,
    path: Seq<char>,
    remotes: Vec<RemoteInfo>,
    world: spec_fn(ResolveRequestView) -> ResolveReply,
    home: Option<Seq<char>>,
)
    requires
        c is Remote,
        is_at(c, path, world, home),
    ensures
        ({
            let m = found(json, c, world, home);
            let done = replied(json, m, Reply::Done, home);
            let did = |what: Seq<char>, rest: Seq<char>|
                accepted(m.wait, Reply::Done) && shows(done, json, DataView::Did { what, rest });
            &&& c matches Command::Remote(a) && match a.action {
                Some(RemoteAction::Add { name, url }) => asks(
                    m,
                    RequestView::AddRemote { path, name: name@, url: url@ },
                ) && did("added remote"@, " "@ + name@ + " -> "@ + url@),
                Some(RemoteAction::Remove { name }) => asks(
                    m,
                    RequestView::RemoveRemote { path, name: name@ },
                ) && did("removed remote"@, " "@ + name@),
                Some(RemoteAction::Rename { old, new }) => asks(
                    m,
                    RequestView::RenameRemote { path, old: old@, new: new@ },
                ) && did("renamed remote"@, " "@ + old@ + " -> "@ + new@),
                _ => {
                    &&& asks(m, RequestView::Remotes(path))
                    &&& accepted(m.wait, Reply::Remotes(remotes))
                    &&& shows(
                        replied(json, m, Reply::Remotes(remotes), home),
                        json,
                        DataView::Remotes(remotes@),
                    )
                },
            }
        }),
{
    a_command_finds_its_repo(json, c, world, home);
}

/// A profile is read and shown. Where a name or an address is to be set, the
/// other one stays what it was, or is empty where none could be read; the
/// profile is then read again and shown.
pub proof fn a_profile_keeps_what_is_not_set(
    json: bool,
    c: Command,
    path: Seq<char>,
    was: GitProfile,
    now: GitProfile,
    e: AppError,
    world: spec_fn(ResolveRequestView) -> ResolveReply,
    home: Option<Seq<char>>,
)
    requires
        c is Profile,
        is_at(c, path, world, home),
    ensures
        ({
            let m = found(json, c, world, home);
            let set = replied(json, m, Reply::Profile(was), home);
            let bare = replied(json, m, Reply::Failed(e), home);
            let read = replied(json, set, Reply::Done, home);
            &&& c matches Command::Profile(a)
            &&& asks(m, RequestView::Profile(path))
            &&& accepted(m.wait, Reply::Profile(was))
            &&& a.set_name is None && a.set_email is None ==> {
                &&& shows(set, json, DataView::Profile(was))
                &&& bare.step == StepView::Failed(e@)
            }
            &&& a.set_name is Some || a.set_email is Some ==> {
                &&& asks(
                    set,
                    RequestView::SetProfile {
                        path,
                        name: match a.set_name {
                            Some(n) => n@,
                            None => was.name@,
                        },
                        email: match a.set_email {
                            Some(n) => n@,
                            None => was.email@,
                        },
                    },
                )
                &&& asks(
                    bare,
                    RequestView::SetProfile {
                        path,
                        name: match a.set_name {
                            Some(n) => n@,
                            None => ""@,
                        },
                        email: match a.set_email {
                            Some(n) => n@,
                            None => ""@,
                        },
                    },
                )
                &&& accepted(set.wait, Reply::Done)
                &&& asks(read, RequestView::Profile(path))
                &&& accepted(read.wait, Reply::Profile(now))
                &&& shows(
                    replied(json, read, Reply::Profile(now), home),
                    json,
                    DataView::Profile(now),
                )
            }
        }),
{
    a_command_finds_its_repo(json, c, world, home);
}

/// A request that changes a repository or its settings.
pub open spec fn changes(r: RequestView) -> bool {
    match r {
        RequestView::Operate(..)
        | RequestView::StageAll(..)
        | RequestView::UnstageAll(..)
        | RequestView::StageFiles { .. }
        | RequestView::UnstageFiles { .. }
        | RequestView::Commit { .. }
        | RequestView::Squash { .. }
        | RequestView::CreateBranch { .. }
        | RequestView::Checkout { .. }
        | RequestView::DeleteBranch { .. }
        | RequestView::Merge { .. }
        | RequestView::StashSave { .. }
        | RequestView::StashPop { .. }
        | RequestView::StashDrop { .. }
        | RequestView::AddRemote { .. }
        | RequestView::RemoveRemote { .. }
        | RequestView::RenameRemote { .. }
        | RequestView::SetProfile { .. } => true,
        _ => false,
    }
}

/// Each change is asked for only by the command that is for it, with what that
/// command was given: a branch is deleted only by a delete of that branch, a
/// stash is dropped only by a drop of that stash, and so on.
pub proof fn changes_belong_to_their_commands(
    json: bool,
    c: Command,
    path: Seq<char>,
    r: RequestView,
    world: spec_fn(ResolveRequestView) -> ResolveReply,
    home: Option<Seq<char>>,
)
    requires
        is_at(c, path, world, home),
        found(json, c, world, home).step == StepView::Ask(r),
        changes(r),
    ensures
        match r {
            RequestView::Operate(op, at) => op == Op::Push && at == path && c is Push,
            RequestView::StageAll(at) => at == path && c is Add,
            RequestView::UnstageAll(at) => at == path && c is Reset,
            RequestView::StageFiles { path: at, files } => at == path && (c matches Command::Add(a)
                && files == texts(a.paths@)),
            RequestView::UnstageFiles { path: at, files } => at == path && (
            c matches Command::Reset(a) && files == texts(a.paths@)),
            RequestView::Commit { path: at, message } => at == path && (c matches Command::Commit(
                a,
            ) && message == a.message@),
            RequestView::Squash { path: at, count, message } => at == path && (
            c matches Command::Squash(a) && count == a.count && message == a.message@),
            RequestView::CreateBranch { path: at, name } => at == path && (
            c matches Command::Branch(a) && a.action matches Some(BranchAction::Create { name: n })
                && name == n@),
            RequestView::Checkout { path: at, name } => at == path && (c matches Command::Branch(a)
                && a.action matches Some(BranchAction::Checkout { name: n }) && name == n@),
            RequestView::DeleteBranch { path: at, name } => at == path && (
            c matches Command::Branch(a) && a.action matches Some(BranchAction::Delete { name: n })
                && name == n@),
            RequestView::Merge { path: at, name } => at == path && (c matches Command::Branch(a)
                && a.action matches Some(BranchAction::Merge { name: n }) && name == n@),
            RequestView::StashSave { path: at, message } => at == path && (
            c matches Command::Stash(a) && a.action matches Some(StashAction::Save { message: t })
                && message == t@),
            RequestView::StashPop { path: at, index } => at == path && (c matches Command::Stash(a)
                && a.action matches Some(StashAction::Pop { index: i }) && index == i),
            RequestView::StashDrop { path: at, index } => at == path && (c matches Command::Stash(
                a,
            ) && a.action matches Some(StashAction::Drop { index: i }) && index == i),
            RequestView::AddRemote { path: at, name, url } => at == path && (
            c matches Command::Remote(a) && a.action matches Some(
                RemoteAction::Add { name: n, url: u },
            ) && name == n@ && url == u@),
            RequestView::RemoveRemote { path: at, name } => at == path && (
            c matches Command::Remote(a) && a.action matches Some(RemoteAction::Remove { name: n })
                && name == n@),
            RequestView::RenameRemote { path: at, old, new } => at == path && (
            c matches Command::Remote(a) && a.action matches Some(
                RemoteAction::Rename { old: o, new: n },
            ) && old == o@ && new == n@),
            _ => false,
        },
{
    a_command_finds_its_repo(json, c, world, home);
}

/// A command changes nothing before its repositories are found, and after its
/// own change it asks for no other one: only an operation on several
/// repositories goes on to the next, and only a profile is set after it was
/// read.
pub proof fn nothing_else_is_changed(
    json: bool,
    c: Command,
    wait: WaitView,
    reply: Reply,
    home: Option<Seq<char>>,
)
    requires
        accepted(wait, reply),
    ensures
        command_start(json, c, home).step matches StepView::Ask(r) ==> !changes(r),
        move_after(json, wait, reply, home).step matches StepView::Ask(r) ==> {
            &&& changes(r) ==> {
                ||| wait is Resolving
                ||| wait is ResolvingMany && r is Operate
                ||| wait is BulkInfo && r is Operate
                ||| wait is ProfileRead && r is SetProfile
            }
        },
{
}

// ── Pushing ──────────────────────────────

/// A push works on its repository, tells what came of it, reads its state
/// again, and puts that in the place of the known one; a repository that is
/// not known is not added. What failed is told, and does not stop the rest.
pub proof fn a_push_is_told_and_remembered(
    json: bool,
    c: Command,
    path: Seq<char>,
    reply: Reply,
    info: RepoInfo,
    known: Vec<RepoInfo>,
    world: spec_fn(ResolveRequestView) -> ResolveReply,
    home: Option<Seq<char>>,
)
    requires
        c is Push,
        is_at(c, path, world, home),
        reply is Done || reply is Failed,
    ensures
        ({
            let m = found(json, c, world, home);
            let read = replied(json, m, reply, home);
            let load = replied(json, read, Reply::Repo(info), home);
            let end = replied(json, load, Reply::Repos(known), home);
            let error = match reply {
                Reply::Failed(e) => Some(e@.text()),
                _ => None,
            };
            &&& c matches Command::Push(a)
            &&& asks(m, RequestView::Operate(Op::Push, path))
            &&& accepted(m.wait, reply) && accepted(read.wait, Reply::Repo(info)) && accepted(
                load.wait,
                Reply::Repos(known),
            )
            &&& read.step == StepView::Ask(RequestView::Info(path))
            &&& read.says == if json {
                seq![]
            } else {
                seq![
                    SayView::Text(
                        DataView::Outcome { op: Op::Push, name: a.repo@, error },
                    ),
                ]
            }
            &&& asks(load, RequestView::LoadCache)
            &&& end.step is Done
            &&& json ==> end.says.len() > 0 && end.says.last() == SayView::Json(
                DataView::Pushed { repo: a.repo@, error },
            )
            &&& (exists|i: int| 0 <= i < known@.len() && (#[trigger] known@[i]).path@ == info.path@)
                ==> end.says.len() == (if json {
                2int
            } else {
                1
            }) && (end.says[0] matches SayView::SaveCache(kept) && replaces_first(
                known@,
                info,
                kept,
            ))
            &&& !(exists|i: int|
                0 <= i < known@.len() && (#[trigger] known@[i]).path@ == info.path@)
                ==> end.says.len() == (if json {
                1int
            } else {
                0
            })
        }),
{
    a_command_finds_its_repo(json, c, world, home);
    place_is_first(known@, info.path@);
}

/// `kept` is what was known, with the state of the first repository at the
/// path of `info` made `info`.
pub open spec fn replaces_first(known: Seq<RepoInfo>, info: RepoInfo, kept: Seq<RepoInfo>) -> bool {
    exists|k: int|
        {
            &&& 0 <= k < known.len()
            &&& (#[trigger] known[k]).path@ == info.path@
            &&& forall|i: int| 0 <= i < k ==> (#[trigger] known[i]).path@ != info.path@
            &&& kept == known.update(k, info)
        }
}

// ── Several repositories ─────────────────

proof fn many_lead_to_the_work(
    json: bool,
    op: Op,
    step: ManyStepView,
    world: spec_fn(ResolveRequestView) -> ResolveReply,
    home: Option<Seq<char>>,
)
    ensures
        after_search(json, after_many(json, op, step), world, home) == after_many(
            json,
            op,
            match searched_many(step, world, home) {
                Ok(targets) => ManyStepView::Found(targets),
                Err(e) => ManyStepView::Failed(e),
            },
        ),
    decreases
            match step {
                ManyStepView::Ask(s, _) => replies_to_find_many(s),
                _ => 0,
            },
{
    match step {
        ManyStepView::Ask(s, q) => {
            many_lead_to_the_work(json, op, s.next(world(q), home), world, home);
        },
        _ => {},
    }
}

/// A fetch and a pull go to the repositories that are named, or to all known
/// ones where `--all` is given; a fetch of none in particular is one of all.
/// They start with the first of them. Where one cannot be found, nothing is
/// done.
pub proof fn several_are_worked_on(
    json: bool,
    c: Command,
    world: spec_fn(ResolveRequestView) -> ResolveReply,
    home: Option<Seq<char>>,
)
    requires
        c is Fetch || c is Pull,
    ensures
        ({
            let m = found(json, c, world, home);
            let args = match c {
                Command::Fetch(a) => a,
                Command::Pull(a) => a,
                _ => arbitrary(),
            };
            let op = if c is Fetch {
                Op::Fetch
            } else {
                Op::Pull
            };
            let all = args.all || (c is Fetch && args.repos@.len() == 0);
            match searched_many(search_many(texts(args.repos@), all, home), world, home) {
                Err(e) => m.step == StepView::Failed(e) && m.says.len() == 0,
                Ok(targets) => {
                    &&& targets.len() > 0 ==> {
                        &&& m.step == StepView::Ask(RequestView::Operate(op, targets[0].1))
                        &&& m.wait == (WaitView::BulkWork { op, targets, at: 0, results: seq![] })
                        &&& m.says == if json {
                            seq![]
                        } else {
                            seq![SayView::Notice(NoticeView::Working(op, targets[0].0))]
                        }
                    }
                    &&& targets.len() == 0 ==> m.step == StepView::Ask(RequestView::LoadCache)
                },
            }
        }),
{
    let args = match c {
        Command::Fetch(a) => a,
        Command::Pull(a) => a,
        _ => arbitrary(),
    };
    let op = if c is Fetch {
        Op::Fetch
    } else {
        Op::Pull
    };
    let all = args.all || (c is Fetch && args.repos@.len() == 0);
    many_lead_to_the_work(
        json,
        op,
        search_many(texts(args.repos@), all, home),
        world,
        home,
    );
}

/// With `--all` the repositories are the known ones, each under its name and
/// at its path, in their order; where none is known, or none is named, there
/// is nothing to do.
pub proof fn all_means_all_known(
    ids: Seq<Seq<char>>,
    known: Vec<RepoInfo>,
    world: spec_fn(ResolveRequestView) -> ResolveReply,
    home: Option<Seq<char>>,
)
    requires
        world(ResolveRequestView::LoadCache) == ResolveReply::Cache(known),
    ensures
        ({
            let found = searched_many(search_many(ids, true, home), world, home);
            &&& known@.len() > 0 ==> {
                &&& found matches Ok(targets)
                &&& targets.len() == known@.len()
                &&& forall|i: int|
                    0 <= i < known@.len() ==> (#[trigger] targets[i]) == (
                        known@[i].name@,
                        known@[i].path@,
                    )
            }
            &&& known@.len() == 0 ==> found == Err::<Seq<(Seq<char>, Seq<char>)>, AppErrorView>(
                AppErrorView::General("Cache is empty. Run `gitatlas scan` first."@),
            )
        }),
        searched_many(search_many(seq![], false, home), world, home) == Err::<
            Seq<(Seq<char>, Seq<char>)>,
            AppErrorView,
        >(AppErrorView::General("Specify one or more repos, or pass --all."@)),
{
    reveal_with_fuel(searched_many, 2);
}

/// After the work on one of several repositories, whether it succeeded or
/// failed, its state is read, the outcome is told, and the next one follows;
/// after the last one the known repositories are read.
pub proof fn each_is_worked_on_in_turn(
    json: bool,
    op: Op,
    targets: Seq<(Seq<char>, Seq<char>)>,
    at: int,
    results: Seq<BulkResultView>,
    reply: Reply,
    info: RepoInfo,
    home: Option<Seq<char>>,
)
    requires
        0 <= at < targets.len(),
        reply is Done || reply is Failed,
    ensures
        ({
            let work = WaitView::BulkWork { op, targets, at, results };
            let read = move_after(json, work, reply, home);
            let next = replied(json, read, Reply::Repo(info), home);
            let error = match reply {
                Reply::Failed(e) => Some(e@.text()),
                _ => None,
            };
            let result = BulkResultView {
                name: targets[at].0,
                path: targets[at].1,
                error,
                status: info,
            };
            let outcome = SayView::Text(DataView::Outcome { op, name: targets[at].0, error });
            &&& accepted(work, reply)
            &&& asks(read, RequestView::Info(targets[at].1))
            &&& accepted(read.wait, Reply::Repo(info))
            &&& json ==> next.says.len() == 0
            &&& !json ==> next.says.len() > 0 && next.says[0] == outcome
            &&& at + 1 < targets.len() ==> {
                &&& next.step == StepView::Ask(RequestView::Operate(op, targets[at + 1].1))
                &&& next.wait == (WaitView::BulkWork {
                    op,
                    targets,
                    at: at + 1,
                    results: results.push(result),
                })
                &&& !json ==> next.says == seq![
                    outcome,
                    SayView::Notice(NoticeView::Working(op, targets[at + 1].0)),
                ]
            }
            &&& at + 1 == targets.len() ==> {
                &&& next.step == StepView::Ask(RequestView::LoadCache)
                &&& next.wait == (WaitView::BulkCache { results: results.push(result) })
                &&& !json ==> next.says == seq![outcome]
            }
        }),
{
    assert(!json ==> replied(
        json,
        move_after(json, WaitView::BulkWork { op, targets, at, results }, reply, home),
        Reply::Repo(info),
        home,
    ).says.len() <= 2);
}

/// At the end of an operation on several repositories the state that each was
/// found in is kept, and the results are printed where JSON was asked for.
pub proof fn results_are_kept(
    json: bool,
    results: Seq<BulkResultView>,
    known: Vec<RepoInfo>,
    home: Option<Seq<char>>,
)
    ensures
        ({
            let end = move_after(
                json,
                WaitView::BulkCache { results },
                Reply::Repos(known),
                home,
            );
            &&& end.step is Done
            &&& end.says[0] == SayView::SaveCache(refreshed_with(known@, results))
            &&& json ==> end.says.len() == 2 && end.says[1] == SayView::Json(
                DataView::Bulk(results),
            )
            &&& !json ==> end.says.len() == 1
        }),
{
}

/// The state that a repository was found in replaces the known one at its
/// path, and a repository that was not known is added.
pub proof fn the_last_result_is_known(
    known: Seq<RepoInfo>,
    results: Seq<BulkResultView>,
    last: BulkResultView,
)
    ensures
        refreshed_with(known, seq![]) == known,
        ({
            let before = refreshed_with(known, results);
            let after = refreshed_with(known, results.push(last));
            let there = exists|i: int|
                0 <= i < before.len() && (#[trigger] before[i]).path@ == last.path;
            &&& !there ==> after == before.push(last.status)
            &&& there ==> exists|k: int|
                {
                    &&& 0 <= k < before.len()
                    &&& (#[trigger] before[k]).path@ == last.path
                    &&& forall|i: int| 0 <= i < k ==> (#[trigger] before[i]).path@ != last.path
                    &&& after == before.update(k, last.status)
                }
        }),
{
    assert(results.push(last).drop_last() =~= results);
    place_is_first(refreshed_with(known, results), last.path);
}

// ── Scanning and listing ─────────────────

/// A scan goes through the configured roots, or through `~/dev` where none is
/// configured and that is a directory; what it finds is kept and shown.
/// Without roots it fails.
#[verifier::rlimit(50)]
pub proof fn a_scan_keeps_what_it_finds(
    json: bool,
    config: Config,
    h: Option<String>,
    default_is_dir: bool,
    repos: Vec<RepoInfo>,
    home: Option<Seq<char>>,
)
    ensures
        ({
            let m = command_start(json, Command::Scan, home);
            let reply = Reply::Roots { config, home: h, default_is_dir };
            let scan = replied(json, m, reply, home);
            let end = replied(json, scan, Reply::Repos(repos), home);
            let dev = |b: Seq<char>| if b.len() == 0 || b.last() == '/' {
                b + "dev"@
            } else {
                b + "/dev"@
            };
            let roots = if config.scan_roots@.len() > 0 {
                texts(config.scan_roots@)
            } else {
                match h {
                    Some(b) => if default_is_dir {
                        seq![dev(b@)]
                    } else {
                        seq![]
                    },
                    None => seq![],
                }
            };
            &&& asks(m, RequestView::ReadRoots)
            &&& accepted(m.wait, reply)
            &&& roots.len() == 0 ==> scan.step == StepView::Failed(
                AppErrorView::General(
                    "No scan roots configured and ~/dev is not present.\nAdd one with: gitatlas config roots add <path>"@,
                ),
            )
            &&& roots.len() > 0 ==> {
                &&& scan.step == StepView::Ask(RequestView::Scan(roots))
                &&& scan.says == if json {
                    seq![]
                } else {
                    seq![SayView::Notice(NoticeView::Scanning(roots))]
                }
                &&& accepted(scan.wait, Reply::Repos(repos))
                &&& end.step is Done
                &&& end.says == seq![
                    SayView::SaveCache(repos@),
                    if json {
                        SayView::Json(DataView::Repos(repos@))
                    } else {
                        SayView::Text(DataView::Repos(repos@))
                    },
                ]
            }
        }),
{
    reveal_strlit("dev");
    reveal_strlit("/dev");
    if let Some(b) = h {
        assert(b@.push('/') + "dev"@ =~= b@ + "/dev"@);
    }
    let m = command_start(json, Command::Scan, home);
    let scan = replied(json, m, Reply::Roots { config, home: h, default_is_dir }, home);
    assert(scan.says =~= if json || !(scan.step is Ask) {
        seq![]
    } else {
        seq![SayView::Notice(NoticeView::Scanning(scan.step->Ask_0->Scan_0))]
    });
}

/// A listing reads the known repositories, after a scan where it is to
/// refresh them, and shows those that were asked for.
pub proof fn a_listing_shows_what_is_known(
    json: bool,
    args: ListArgs,
    known: Vec<RepoInfo>,
    home: Option<Seq<char>>,
)
    ensures
        ({
            let m = command_start(json, Command::List(args), home);
            let end = replied(json, m, Reply::Repos(known), home);
            let d = DataView::Repos(listing(args, known@));
            let shown = if json {
                SayView::Json(d)
            } else {
                SayView::Text(d)
            };
            &&& args.refresh ==> asks(m, RequestView::ReadRoots) && m.wait == WaitView::Roots(
                Some(args),
            )
            &&& !args.refresh ==> {
                &&& asks(m, RequestView::LoadCache)
                &&& accepted(m.wait, Reply::Repos(known))
                &&& end.step is Done
                &&& end.says.last() == shown
                &&& listing(args, known@).len() > 0 || json ==> end.says.len() == 1
                &&& listing(args, known@).len() == 0 && !json ==> end.says == seq![
                    SayView::Notice(
                        NoticeView::NothingCached(
                            match args.search {
                                Some(s) => Some(s@),
                                None => None,
                            },
                        ),
                    ),
                    shown,
                ]
            }
        }),
{
}

/// A listing that refreshes scans as a scan does, keeps and shows what was
/// found, and then shows those of the known repositories that were asked for.
pub proof fn a_refreshed_listing_scans(
    json: bool,
    args: ListArgs,
    roots: Reply,
    repos: Vec<RepoInfo>,
    known: Vec<RepoInfo>,
    home: Option<Seq<char>>,
)
    requires
        args.refresh,
        roots is Roots,
    ensures
        ({
            let m = command_start(json, Command::List(args), home);
            let scan = replied(json, m, roots, home);
            let plain = replied(json, command_start(json, Command::Scan, home), roots, home);
            let load = replied(json, scan, Reply::Repos(repos), home);
            let end = replied(json, load, Reply::Repos(known), home);
            &&& scan.step == plain.step && scan.says == plain.says
            &&& scan.step is Ask ==> {
                &&& load.step == StepView::Ask(RequestView::LoadCache)
                &&& load.says.len() == 2
                &&& load.says[0] == SayView::SaveCache(repos@)
                &&& load.says[1] == if json {
                    SayView::Json(DataView::Repos(repos@))
                } else {
                    SayView::Text(DataView::Repos(repos@))
                }
                &&& accepted(load.wait, Reply::Repos(known))
                &&& shows(end, json, DataView::Repos(listing(args, known@)))
            }
        }),
{
}

/// A repository is listed where its health is the one that was asked for, and
/// the search text occurs in its name, its branch or its path, whatever the
/// case; without either condition every one is. The order stays.
pub proof fn a_listing_is_exact(args: ListArgs, known: Seq<RepoInfo>, r: RepoInfo)
    ensures
        listing(args, known).contains(r) <==> known.contains(r) && is_listed(args, r),
        is_listed(args, r) <==> {
            &&& args.health matches Some(h) ==> r.health == match crate::models::health_named(h@) {
                Some(t) => t,
                None => RepoHealth::Error,
            }
            &&& args.search matches Some(q) ==> {
                ||| crate::text::has_text(lowercase(r.name@), lowercase(q@))
                ||| crate::text::has_text(lowercase(r.branch@), lowercase(q@))
                ||| crate::text::has_text(lowercase(r.path@), lowercase(q@))
            }
        },
        args.health is None && args.search is None ==> listing(args, known) == known,
        listing(args, known.push(r)) == if is_listed(args, r) {
            listing(args, known).push(r)
        } else {
            listing(args, known)
        },
{
    let f = |x: RepoInfo| is_listed(args, x);
    if listing(args, known).contains(r) {
        let i = choose|i: int| 0 <= i < known.filter(f).len() && known.filter(f)[i] == r;
        known.lemma_filter_pred(f, i);
        known.lemma_filter_contains_rev(f, r);
    }
    if known.contains(r) && is_listed(args, r) {
        let k = choose|k: int| 0 <= k < known.len() && known[k] == r;
        known.lemma_filter_contains(f, k);
    }
    reveal(Seq::filter);
    assert(known.push(r).drop_last() =~= known);
    if args.health is None && args.search is None {
        all_are_listed(args, known);
    }
}

proof fn all_are_listed(args: ListArgs, known: Seq<RepoInfo>)
    requires
        args.health is None,
        args.search is None,
    ensures
        listing(args, known) == known,
    decreases known.len(),
{
    reveal(Seq::filter);
    if known.len() > 0 {
        all_are_listed(args, known.drop_last());
        assert(known.drop_last().push(known.last()) =~= known);
    } else {
        assert(listing(args, known) =~= known);
    }
}

// ── The configuration ────────────────────

/// The roots are shown as they are configured, and replaced by those that
/// were given.
pub proof fn roots_are_shown_and_replaced(
    json: bool,
    config: Config,
    paths: Vec<String>,
    home: Option<Seq<char>>,
)
    ensures
        ({
            let start = |a: ConfigAction|
                command_start(
                    json,
                    Command::Config(crate::cli::ConfigCmd { action: a }),
                    home,
                );
            let show = start(ConfigAction::Show);
            let list = start(ConfigAction::Roots { action: RootsAction::List });
            let replace = start(ConfigAction::Roots { action: RootsAction::Replace { paths } });
            let d = DataView::Did { what: "scan roots updated"@, rest: ""@ };
            &&& asks(show, RequestView::LoadConfig) && asks(list, RequestView::LoadConfig)
            &&& accepted(show.wait, Reply::Config(config)) && accepted(
                list.wait,
                Reply::Config(config),
            )
            &&& shows(
                replied(json, show, Reply::Config(config), home),
                json,
                DataView::Config(texts(config.scan_roots@)),
            )
            &&& shows(
                replied(json, list, Reply::Config(config), home),
                json,
                DataView::Roots(texts(config.scan_roots@)),
            )
            &&& replace.step is Done
            &&& replace.says == seq![
                SayView::SaveConfig(texts(paths@)),
                if json {
                    SayView::Json(d)
                } else {
                    SayView::Text(d)
                },
            ]
        }),
{
}

/// A root is added at the end, in its absolute form where it has one, unless
/// it is among the roots already, which then stay as they are.
pub proof fn a_root_is_added(
    json: bool,
    path: String,
    config: Config,
    canonical: Option<String>,
    home: Option<Seq<char>>,
)
    ensures
        ({
            let m = command_start(
                json,
                Command::Config(
                    crate::cli::ConfigCmd {
                        action: ConfigAction::Roots { action: RootsAction::Add { path } },
                    },
                ),
                home,
            );
            let ask = replied(json, m, Reply::Config(config), home);
            let end = replied(json, ask, Reply::Canonical(canonical), home);
            let roots = texts(config.scan_roots@);
            let root = match canonical {
                Some(c) => c@,
                None => path@,
            };
            let d = DataView::Did { what: "added root"@, rest: " "@ + root };
            let told = if json {
                SayView::Json(d)
            } else {
                SayView::Text(d)
            };
            &&& asks(m, RequestView::LoadConfig)
            &&& asks(ask, RequestView::Canonicalize(path@))
            &&& accepted(m.wait, Reply::Config(config)) && accepted(
                ask.wait,
                Reply::Canonical(canonical),
            )
            &&& end.step is Done
            &&& roots.contains(root) ==> end.says == seq![told]
            &&& !roots.contains(root) ==> end.says == seq![
                SayView::SaveConfig(roots.push(root)),
                told,
            ]
        }),
{
    let m = command_start(
        json,
        Command::Config(
            crate::cli::ConfigCmd {
                action: ConfigAction::Roots { action: RootsAction::Add { path } },
            },
        ),
        home,
    );
    let end = replied(
        json,
        replied(json, m, Reply::Config(config), home),
        Reply::Canonical(canonical),
        home,
    );
    let n = end.says.len();
    assert(n == 1 ==> end.says =~= seq![end.says[0]]);
    assert(n == 2 ==> end.says =~= seq![end.says[0], end.says[1]]);
}

/// A root is removed: the roots that are kept are all the others, in their
/// order. Where it was none of them, that is told.
pub proof fn a_root_is_removed(
    json: bool,
    path: String,
    config: Config,
    home: Option<Seq<char>>,
)
    ensures
        ({
            let m = command_start(
                json,
                Command::Config(
                    crate::cli::ConfigCmd {
                        action: ConfigAction::Roots { action: RootsAction::Remove { path } },
                    },
                ),
                home,
            );
            let end = replied(json, m, Reply::Config(config), home);
            let roots = texts(config.scan_roots@);
            let left = roots.filter(|t: Seq<char>| t != path@);
            let d = if roots.contains(path@) {
                DataView::Did { what: "removed root"@, rest: " "@ + path@ }
            } else {
                DataView::Remark("(not found) "@ + path@)
            };
            &&& asks(m, RequestView::LoadConfig)
            &&& accepted(m.wait, Reply::Config(config))
            &&& end.step is Done
            &&& end.says == seq![
                SayView::SaveConfig(left),
                if json {
                    SayView::Json(d)
                } else {
                    SayView::Text(d)
                },
            ]
        }),
{
    let roots = texts(config.scan_roots@);
    filtering_shortens(roots, path@);
    others_are_left(roots, path@);
}

proof fn others_are_left(v: Seq<Seq<char>>, s: Seq<char>)
    ensures
        crate::handlers::without_text(v, s) == v.filter(|t: Seq<char>| t != s),
    decreases v.len(),
{
    reveal(Seq::filter);
    if v.len() > 0 {
        others_are_left(v.drop_last(), s);
    }
}

proof fn filtering_shortens(v: Seq<Seq<char>>, s: Seq<char>)
    ensures
        v.filter(|t: Seq<char>| t != s).len() <= v.len(),
        v.contains(s) <==> v.filter(|t: Seq<char>| t != s).len() < v.len(),
    decreases v.len(),
{
    reveal(Seq::filter);
    if v.len() > 0 {
        let w = v.drop_last();
        filtering_shortens(w, s);
        if w.contains(s) {
            let k = choose|k: int| 0 <= k < w.len() && w[k] == s;
            assert(v[k] == s);
        }
        if v.contains(s) {
            let k = choose|k: int| 0 <= k < v.len() && v[k] == s;
            if k < w.len() {
                assert(w[k] == s);
            }
        }
        if v.last() == s {
            assert(v[v.len() - 1] == s);
        }
    }
}

/// The terminal interface is started, and when it is over nothing is said.
pub proof fn the_interface_is_started(json: bool, home: Option<Seq<char>>)
    ensures
        asks(command_start(json, Command::Tui, home), RequestView::Tui),
        ({
            let end = replied(json, command_start(json, Command::Tui, home), Reply::Done, home);
            end.step is Done && end.says.len() == 0
        }),
{
}

// ── Requests ─────────────────────────────

/// What is asked for is what is stated of it.
pub proof fn requests_are_what_they_say(r: Request, s: Step)
    ensures
        match s {
            Step::Ask(q) => s@ == StepView::Ask(q@),
            Step::Done => s@ is Done,
            Step::Failed(e) => s@ == StepView::Failed(e@),
        },
        match r {
            Request::Resolve(q) => r@ == RequestView::Resolve(q@),
            Request::ReadRoots => r@ is ReadRoots,
            Request::Scan(v) => r@ == RequestView::Scan(texts(v@)),
            Request::LoadCache => r@ is LoadCache,
            Request::LoadConfig => r@ is LoadConfig,
            Request::Canonicalize(p) => r@ == RequestView::Canonicalize(p@),
            Request::Info(p) => r@ == RequestView::Info(p@),
            Request::Operate(op, p) => r@ == RequestView::Operate(op, p@),
            Request::Log { path, count } => r@ == (RequestView::Log { path: path@, count }),
            Request::FileHistory { path, file, count } => r@ == (RequestView::FileHistory {
                path: path@,
                file: file@,
                count,
            }),
            Request::CommitFiles { path, commit } => r@ == (RequestView::CommitFiles {
                path: path@,
                commit: commit@,
            }),
            Request::CommitDiff { path, commit } => r@ == (RequestView::CommitDiff {
                path: path@,
                commit: commit@,
            }),
            Request::FileDiff { path, file, staged } => r@ == (RequestView::FileDiff {
                path: path@,
                file: file@,
                staged,
            }),
            Request::WorkdirDiff { path, staged } => r@ == (RequestView::WorkdirDiff {
                path: path@,
                staged,
            }),
            Request::StageAll(p) => r@ == RequestView::StageAll(p@),
            Request::UnstageAll(p) => r@ == RequestView::UnstageAll(p@),
            Request::StageFiles { path, files } => r@ == (RequestView::StageFiles {
                path: path@,
                files: texts(files@),
            }),
            Request::UnstageFiles { path, files } => r@ == (RequestView::UnstageFiles {
                path: path@,
                files: texts(files@),
            }),
            Request::Changes(p) => r@ == RequestView::Changes(p@),
            Request::Commit { path, message } => r@ == (RequestView::Commit {
                path: path@,
                message: message@,
            }),
            Request::Squash { path, count, message } => r@ == (RequestView::Squash {
                path: path@,
                count,
                message: message@,
            }),
            Request::Branches(p) => r@ == RequestView::Branches(p@),
            Request::CreateBranch { path, name } => r@ == (RequestView::CreateBranch {
                path: path@,
                name: name@,
            }),
            Request::Checkout { path, name } => r@ == (RequestView::Checkout {
                path: path@,
                name: name@,
            }),
            Request::DeleteBranch { path, name } => r@ == (RequestView::DeleteBranch {
                path: path@,
                name: name@,
            }),
            Request::Merge { path, name } => r@ == (RequestView::Merge { path: path@, name: name@ }),
            Request::Stashes(p) => r@ == RequestView::Stashes(p@),
            Request::StashSave { path, message } => r@ == (RequestView::StashSave {
                path: path@,
                message: message@,
            }),
            Request::StashPop { path, index } => r@ == (RequestView::StashPop { path: path@, index }),
            Request::StashDrop { path, index } => r@ == (RequestView::StashDrop {
                path: path@,
                index,
            }),
            Request::Remotes(p) => r@ == RequestView::Remotes(p@),
            Request::AddRemote { path, name, url } => r@ == (RequestView::AddRemote {
                path: path@,
                name: name@,
                url: url@,
            }),
            Request::RemoveRemote { path, name } => r@ == (RequestView::RemoveRemote {
                path: path@,
                name: name@,
            }),
            Request::RenameRemote { path, old, new } => r@ == (RequestView::RenameRemote {
                path: path@,
                old: old@,
                new: new@,
            }),
            Request::Profile(p) => r@ == RequestView::Profile(p@),
            Request::SetProfile { path, name, email } => r@ == (RequestView::SetProfile {
                path: path@,
                name: name@,
                email: email@,
            }),
            Request::Readme(p) => r@ == RequestView::Readme(p@),
            Request::Page(p) => r@ == RequestView::Page(p@),
            Request::Tui => r@ is Tui,
        },
{
}

} // verus!
