//! What a fetch, a pull and a push do to a repository and its remotes.
use ssh2_config::SshConfig;
use vstd::prelude::*;
use vstd::string::*;

use crate::error::{AppError, AppErrorView};
use crate::git::operations::{agent_socket_path, line_end, spoken, spoken_from, tip_text, EventView,
    Goal, Phase, ProgressEvent, RemoteReply, RemoteRequest, RemoteRequestView, RemoteStep,
    RemoteStepView, RemoteTaskView};
use crate::git::remote_url::{opt_host_view, redacted, ssh_config_applied};
use crate::text::{present, text_in, texts, trimmed};

verus! {

// ── Starting ─────────────────────────────

/// A fetch and a pull start with the remotes of their repository, a push with
/// its HEAD; nothing is reported yet.
pub proof fn tasks_start_at_their_repo(path: Seq<char>, watched: bool)
    ensures
        ({
            let fetch = RemoteTaskView::fresh(Goal::Fetch, path, watched);
            let pull = RemoteTaskView::fresh(Goal::Pull, path, watched);
            let push = RemoteTaskView::fresh(Goal::Push, path, watched);
            &&& fetch.opening().step == RemoteStepView::Ask(RemoteRequestView::ListRemotes(path))
            &&& pull.opening().step == RemoteStepView::Ask(RemoteRequestView::ListRemotes(path))
            &&& push.opening().step == RemoteStepView::Ask(RemoteRequestView::ReadHead(path))
            &&& fetch.opening().events.len() == 0
            &&& pull.opening().events.len() == 0
            &&& push.opening().events.len() == 0
            &&& fetch.phase == Phase::ListRemotes && pull.phase == Phase::ListRemotes
            &&& push.phase == Phase::ReadHead
            &&& fetch.goal == Goal::Fetch && pull.goal == Goal::Pull && push.goal == Goal::Push
            &&& fetch.path == path && pull.path == path && push.path == path
            &&& fetch.watched == watched && pull.watched == watched && push.watched == watched
        }),
{
}

/// A task stays with its repository and its goal.
pub proof fn tasks_keep_their_goal(
    t: RemoteTaskView,
    reply: RemoteReply,
    config: Option<&SshConfig>,
    home: Option<Seq<char>>,
)
    requires
        t.accepts(reply),
    ensures
        t.next(reply, config, home).0.goal == t.goal,
        t.next(reply, config, home).0.path == t.path,
        t.next(reply, config, home).0.watched == t.watched,
{
}

/// A phase belongs to a goal: only a pull rebases, and only a push asks for
/// the address of origin.
pub open spec fn phase_fits(t: RemoteTaskView) -> bool {
    match t.phase {
        Phase::ListRemotes | Phase::ReadRemote | Phase::FetchRemote => t.goal != Goal::Push,
        Phase::ReadHead => t.goal != Goal::Fetch,
        Phase::ReadOrigin | Phase::PushBranch => t.goal == Goal::Push,
        Phase::Over => true,
        _ => t.goal == Goal::Pull,
    }
}

/// A fetch changes no branch and sends nothing, a pull sends nothing, and a
/// push neither fetches nor rebases.
pub proof fn tasks_do_nothing_else(
    t: RemoteTaskView,
    reply: RemoteReply,
    config: Option<&SshConfig>,
    home: Option<Seq<char>>,
)
    requires
        phase_fits(t),
        t.accepts(reply),
    ensures
        phase_fits(t.next(reply, config, home).0),
        match t.next(reply, config, home).1.step {
            RemoteStepView::Ask(r) => match r {
                RemoteRequestView::ListRemotes(_)
                | RemoteRequestView::ReadRemote(_)
                | RemoteRequestView::Fetch { .. } => t.goal != Goal::Push,
                RemoteRequestView::ReadHead(p) => t.goal == Goal::Pull && p == t.path,
                RemoteRequestView::ReadOrigin | RemoteRequestView::Push { .. } => t.goal
                    == Goal::Push,
                _ => t.goal == Goal::Pull,
            },
            _ => true,
        },
{
}

// ── Fetching ─────────────────────────────

/// A fetch, and a pull before anything else, goes through every remote that
/// has a name, in order: it looks the remote up, and fetches from its address,
/// as the ssh configuration has it, by all of its refspecs.
pub proof fn every_remote_is_fetched(
    t: RemoteTaskView,
    url: Option<String>,
    refspecs: Vec<Option<String>>,
    config: Option<&SshConfig>,
    home: Option<Seq<char>>,
)
    requires
        t.phase == Phase::ReadRemote,
        0 <= t.next_remote < t.remotes.len(),
    ensures
        ({
            let (fetching, asked) = t.next(RemoteReply::Remote { url, refspecs }, config, home);
            let (after, next) = fetching.next(RemoteReply::Done, config, home);
            let own = match url {
                Some(u) => u@,
                None => ""@,
            };
            &&& asked.step matches RemoteStepView::Ask(
                RemoteRequestView::Fetch { url: from, refspecs: by, host },
            )
            &&& from == ssh_config_applied(own, config, home).0
            &&& host == ssh_config_applied(own, config, home).1
            &&& config is None ==> from == own
            &&& by == present(refspecs@)
            &&& fetching.accepts(RemoteReply::Done)
            &&& after.remotes == t.remotes
            &&& after.next_remote == t.next_remote + 1
            &&& next.step == if t.next_remote + 1 < t.remotes.len() {
                RemoteStepView::Ask(
                    RemoteRequestView::ReadRemote(t.remotes[t.next_remote + 1]),
                )
            } else if t.goal == Goal::Pull {
                RemoteStepView::Ask(RemoteRequestView::ReadHead(t.path))
            } else {
                RemoteStepView::Done
            }
            &&& t.next_remote + 1 < t.remotes.len() ==> after.phase == Phase::ReadRemote
            &&& t.next_remote + 1 < t.remotes.len() && t.watched ==> next.events == seq![
                EventView::Stage("fetching "@ + t.remotes[t.next_remote + 1]),
            ]
        }),
{
}

/// The remotes of a fetch or a pull are all those with a name, and the first
/// of them is looked up first. Without any, a fetch is done, and a pull goes
/// on with HEAD.
pub proof fn the_first_remote_comes_first(
    t: RemoteTaskView,
    names: Vec<Option<String>>,
    config: Option<&SshConfig>,
    home: Option<Seq<char>>,
)
    requires
        t.phase == Phase::ListRemotes,
    ensures
        ({
            let (u, turn) = t.next(RemoteReply::Names(names), config, home);
            let all = present(names@);
            &&& u.remotes == all
            &&& u.next_remote == 0
            &&& all.len() > 0 ==> u.phase == Phase::ReadRemote && turn.step == RemoteStepView::Ask(
                RemoteRequestView::ReadRemote(all[0]),
            )
            &&& all.len() > 0 && t.watched ==> turn.events == seq![
                EventView::Stage("fetching "@ + all[0]),
            ]
            &&& all.len() == 0 && t.goal == Goal::Pull ==> turn.step == RemoteStepView::Ask(
                RemoteRequestView::ReadHead(t.path),
            )
            &&& all.len() == 0 && t.goal == Goal::Fetch ==> turn.step == RemoteStepView::Done
        }),
{
}

/// Of a list of texts, some of which may be missing, those that are there
/// stay, in their order: one more at the end, if it is there, comes last.
pub proof fn present_ones_stay(v: Seq<Option<String>>, more: Option<String>)
    ensures
        present(seq![]) == Seq::<Seq<char>>::empty(),
        present(v.push(more)) == match more {
            Some(s) => present(v).push(s@),
            None => present(v),
        },
{
    assert(v.push(more).drop_last() =~= v);
}

// ── Pulling ──────────────────────────────

/// A pull looks up the counterpart on origin of the branch that HEAD is on,
/// finds its commit, and rebases onto that very reference.
pub proof fn a_pull_rebases_onto_origin(
    t: RemoteTaskView,
    branch: String,
    picks: usize,
    e: AppError,
    config: Option<&SshConfig>,
    home: Option<Seq<char>>,
)
    requires
        t.phase == Phase::ReadHead,
        t.goal == Goal::Pull,
    ensures
        ({
            let upstream = "refs/remotes/origin/"@ + branch@;
            let (a, first) = t.next(RemoteReply::Head(Some(branch)), config, home);
            let (b, second) = a.next(RemoteReply::Done, config, home);
            let (c, third) = b.next(RemoteReply::Done, config, home);
            let (d, fourth) = c.next(RemoteReply::Picks(picks), config, home);
            &&& a.accepts(RemoteReply::Done) && b.accepts(RemoteReply::Done)
            &&& c.accepts(RemoteReply::Picks(picks))
            &&& first.step == RemoteStepView::Ask(RemoteRequestView::FindReference(upstream))
            &&& second.step == RemoteStepView::Ask(RemoteRequestView::PeelReference(upstream))
            &&& third.step == RemoteStepView::Ask(RemoteRequestView::StartRebase(upstream))
            &&& fourth.step == RemoteStepView::Ask(RemoteRequestView::NextPick)
            &&& d.phase == Phase::NextPick && d.picked == 0 && d.picks == picks
            &&& t.watched ==> third.events == seq![
                EventView::Stage("rebasing onto origin/"@ + branch@),
            ]
            &&& a.next(RemoteReply::Failed(e), config, home).1.step == RemoteStepView::Failed(
                AppErrorView::General("No upstream branch found for "@ + branch@),
            )
            &&& b.next(RemoteReply::Failed(e), config, home).1.step == RemoteStepView::Failed(e@)
            &&& c.next(RemoteReply::Failed(e), config, home).1.step == RemoteStepView::Failed(e@)
        }),
{
}

/// Whatever a pull rebases onto is the branch on origin of the same name as
/// the branch that HEAD is on, and it is what was looked up before.
pub proof fn what_is_rebased_onto_was_fetched(
    t: RemoteTaskView,
    reply: RemoteReply,
    config: Option<&SshConfig>,
    home: Option<Seq<char>>,
)
    requires
        t.accepts(reply),
    ensures
        t.next(reply, config, home).1.step matches RemoteStepView::Ask(
            RemoteRequestView::StartRebase(onto),
        ) ==> {
            &&& t.phase == Phase::PeelUpstream
            &&& onto == "refs/remotes/origin/"@ + t.branch
        },
        t.phase == Phase::PeelUpstream && reply is Done ==> t.next(reply, config, home).1.step
            == RemoteStepView::Ask(
            RemoteRequestView::StartRebase("refs/remotes/origin/"@ + t.branch),
        ),
        t.next(reply, config, home).0.branch != t.branch ==> (reply matches RemoteReply::Head(
            Some(b),
        ) && t.next(reply, config, home).0.branch == b@),
{
}

/// A rebase applies one commit after the other: each that has no conflicts is
/// committed before the next one is applied, and after the last one the
/// rebase is finished and the pull is done.
pub proof fn a_rebase_commits_every_pick(
    t: RemoteTaskView,
    config: Option<&SshConfig>,
    home: Option<Seq<char>>,
)
    requires
        t.phase == Phase::NextPick,
        0 <= t.picked < usize::MAX,
    ensures
        ({
            let (a, first) = t.next(RemoteReply::Picked(true), config, home);
            let (b, second) = a.next(RemoteReply::Conflicts(false), config, home);
            let (c, third) = b.next(RemoteReply::Done, config, home);
            let (d, last) = t.next(RemoteReply::Picked(false), config, home);
            &&& first.step == RemoteStepView::Ask(RemoteRequestView::CheckConflicts)
            &&& t.watched ==> first.events == seq![
                EventView::RebaseStep { current: (t.picked + 1) as usize, total: t.picks },
            ]
            &&& second.step == RemoteStepView::Ask(RemoteRequestView::CommitPick)
            &&& third.step == RemoteStepView::Ask(RemoteRequestView::NextPick)
            &&& c == RemoteTaskView { picked: t.picked + 1, ..t }
            &&& last.step == RemoteStepView::Ask(RemoteRequestView::FinishRebase)
            &&& d.next(RemoteReply::Done, config, home).1.step == RemoteStepView::Done
            &&& d.accepts(RemoteReply::Done)
        }),
{
}

/// What was applied is committed only where it has no conflicts, and a rebase
/// is finished only where no commit is left to apply. With conflicts the
/// rebase is undone and the pull fails.
pub proof fn only_clean_picks_are_committed(
    t: RemoteTaskView,
    reply: RemoteReply,
    config: Option<&SshConfig>,
    home: Option<Seq<char>>,
)
    requires
        t.accepts(reply),
    ensures
        ({
            let step = t.next(reply, config, home).1.step;
            let asked = |r: RemoteRequestView| step == RemoteStepView::Ask(r);
            &&& asked(RemoteRequestView::CommitPick) <==> reply == RemoteReply::Conflicts(false)
            &&& asked(RemoteRequestView::AbortRebase) <==> reply == RemoteReply::Conflicts(true)
            &&& asked(RemoteRequestView::FinishRebase) <==> reply == RemoteReply::Picked(false)
            &&& t.phase == Phase::AbortRebase && reply is Done ==> step == RemoteStepView::Failed(
                AppErrorView::General("Rebase aborted: conflicts detected"@),
            )
        }),
{
}

/// A pull of a repository whose HEAD is on no branch fails, and so does a
/// push.
pub proof fn a_branch_is_needed(
    t: RemoteTaskView,
    config: Option<&SshConfig>,
    home: Option<Seq<char>>,
)
    requires
        t.phase == Phase::ReadHead,
    ensures
        t.next(RemoteReply::Head(None), config, home).1.step == RemoteStepView::Failed(
            AppErrorView::General("HEAD is not on a branch"@),
        ),
{
}

// ── Pushing ──────────────────────────────

/// A push sends the branch that HEAD is on to the branch of the same name, at
/// the address that origin has for pushing, or else at its address; the ssh
/// configuration is applied to it, and without one it is used as it is.
pub proof fn a_push_goes_to_origin(
    t: RemoteTaskView,
    branch: String,
    push_url: Option<String>,
    url: Option<String>,
    e: AppError,
    config: Option<&SshConfig>,
    home: Option<Seq<char>>,
)
    requires
        t.phase == Phase::ReadHead,
        t.goal == Goal::Push,
    ensures
        ({
            let (a, first) = t.next(RemoteReply::Head(Some(branch)), config, home);
            let (b, second) = a.next(RemoteReply::Origin { push_url, url }, config, home);
            &&& first.step == RemoteStepView::Ask(RemoteRequestView::ReadOrigin)
            &&& a.accepts(RemoteReply::Origin { push_url, url })
            &&& a.next(RemoteReply::Failed(e), config, home).1.step == RemoteStepView::Failed(
                AppErrorView::General("No 'origin' remote found"@),
            )
            &&& second.step matches RemoteStepView::Ask(
                RemoteRequestView::Push { url: to, refspec, host },
            )
            &&& push_url matches Some(p) ==> {
                &&& to == ssh_config_applied(p@, config, home).0
                &&& host == ssh_config_applied(p@, config, home).1
                &&& config is None ==> to == p@
            }
            &&& push_url is None ==> (url matches Some(u) ==> {
                &&& to == ssh_config_applied(u@, config, home).0
                &&& host == ssh_config_applied(u@, config, home).1
                &&& config is None ==> to == u@
            })
            &&& push_url is None && url is None && config is None ==> to.len() == 0
            &&& refspec == "refs/heads/"@ + branch@ + ":refs/heads/"@ + branch@
            &&& b.accepts(RemoteReply::Done)
            &&& b.next(RemoteReply::Done, config, home).1.step == RemoteStepView::Done
            &&& b.next(RemoteReply::Failed(e), config, home).1.step == RemoteStepView::Failed(e@)
            &&& t.watched ==> second.events.last() == EventView::Stage(
                "pushing "@ + branch@ + " → origin"@,
            )
        }),
{
    reveal_strlit("");
}

/// What is pushed is the branch that HEAD was found on, and nothing is pushed
/// before the address of origin is known; the address that origin has for
/// pushing goes before its other one, and only without both is it empty.
pub proof fn a_push_sends_the_branch_of_head(
    t: RemoteTaskView,
    reply: RemoteReply,
    config: Option<&SshConfig>,
    home: Option<Seq<char>>,
)
    requires
        t.accepts(reply),
    ensures
        t.next(reply, config, home).1.step matches RemoteStepView::Ask(
            RemoteRequestView::Push { url: to, refspec, host },
        ) ==> {
            &&& t.phase == Phase::ReadOrigin
            &&& refspec == "refs/heads/"@ + t.branch + ":refs/heads/"@ + t.branch
            &&& reply matches RemoteReply::Origin { push_url, url }
            &&& match (push_url, url) {
                (Some(p), _) => to == ssh_config_applied(p@, config, home).0,
                (None, Some(u)) => to == ssh_config_applied(u@, config, home).0,
                (None, None) => to == ssh_config_applied(""@, config, home).0,
            }
        },
        t.phase == Phase::ReadOrigin && reply is Origin ==> (t.next(reply, config, home).1.step
            matches RemoteStepView::Ask(RemoteRequestView::Push { .. })),
{
}

// ── Reports ──────────────────────────────

/// A change of an address by the ssh configuration is reported, with neither
/// address naming a user, and nothing is reported where it stays.
pub proof fn rewritten_addresses_are_reported(
    t: RemoteTaskView,
    url: String,
    refspecs: Vec<Option<String>>,
    config: Option<&SshConfig>,
    home: Option<Seq<char>>,
)
    requires
        t.phase == Phase::ReadRemote,
        t.watched,
    ensures
        ({
            let events = t.next(
                RemoteReply::Remote { url: Some(url), refspecs },
                config,
                home,
            ).1.events;
            let to = ssh_config_applied(url@, config, home).0;
            &&& to == url@ ==> events.len() == 0
            &&& to != url@ ==> events == seq![
                EventView::Stage("ssh_config: "@ + redacted(url@) + " → "@ + redacted(to)),
            ]
        }),
{
}

/// A reference that had no object before is new, one that has none after is
/// deleted, and of any other the first seven digits of both ids are told.
pub proof fn moved_references_are_told(name: Seq<char>, old: Seq<char>, new: Seq<char>)
    ensures
        ({
            let zeros = |s: Seq<char>| forall|i: int| 0 <= i < s.len() ==> s[i] == '0';
            let short = |s: Seq<char>| if s.len() < 7 {
                s
            } else {
                s.take(7)
            };
            &&& zeros(old) ==> tip_text(name, old, new) == name + " (new)"@
            &&& !zeros(old) && zeros(new) ==> tip_text(name, old, new) == name + " (deleted)"@
            &&& !zeros(old) && !zeros(new) ==> tip_text(name, old, new) == name + " "@ + short(old)
                + ".."@ + short(new)
        }),
{
    assert(old.len() == 7 ==> old.take(7) =~= old);
    assert(new.len() == 7 ==> new.take(7) =~= new);
}

/// An agent listens below an entry of `/private/tmp` that `launchd` made, and
/// no other entry belongs to one.
pub proof fn agents_listen_below_launchd(name: Seq<char>)
    requires
        name.len() > 0,
        name[0] != '/',
    ensures
        "com.apple.launchd."@.is_prefix_of(name) ==> agent_socket_path(name) == Some(
            "/private/tmp/"@ + name + (if name.last() == '/' {
                "Listeners"@
            } else {
                "/Listeners"@
            }),
        ),
        !"com.apple.launchd."@.is_prefix_of(name) ==> agent_socket_path(name) is None,
{
    reveal_strlit("/private/tmp");
    reveal_strlit("/private/tmp/");
    reveal_strlit("Listeners");
    reveal_strlit("/Listeners");
    assert("/private/tmp"@.push('/') =~= "/private/tmp/"@);
    let dir = "/private/tmp/"@ + name;
    assert(dir.last() == name.last());
    assert(dir.push('/') + "Listeners"@ =~= dir + "/Listeners"@);
    assert("/private/tmp"@.push('/') + name =~= dir);
}

/// What a server says in one line, without a line end in it, is that line
/// trimmed, unless nothing is left of it.
pub proof fn one_line_is_said(s: Seq<char>, i: int)
    requires
        0 <= i <= s.len(),
        forall|k: int| i <= k < s.len() ==> s[k] != '\n' && s[k] != '\r',
    ensures
        spoken_from(s, i) == if trimmed(s.skip(i)).len() == 0 {
            Seq::<Seq<char>>::empty()
        } else {
            seq![trimmed(s.skip(i))]
        },
{
    no_line_end(s, i);
    assert(s.subrange(i, s.len() as int) =~= s.skip(i));
}

proof fn no_line_end(s: Seq<char>, i: int)
    requires
        0 <= i <= s.len(),
        forall|k: int| i <= k < s.len() ==> s[k] != '\n' && s[k] != '\r',
    ensures
        line_end(s, i) == s.len(),
    decreases s.len() - i,
{
    if i < s.len() {
        no_line_end(s, i + 1);
    }
}

/// The first line of what a server says is told before the rest.
pub proof fn lines_are_said_in_order(s: Seq<char>, i: int, e: int)
    requires
        0 <= i <= e < s.len(),
        s[e] == '\n' || s[e] == '\r',
        forall|k: int| i <= k < e ==> s[k] != '\n' && s[k] != '\r',
    ensures
        spoken_from(s, i) == (if trimmed(s.subrange(i, e)).len() == 0 {
            Seq::<Seq<char>>::empty()
        } else {
            seq![trimmed(s.subrange(i, e))]
        }) + spoken_from(s, e + 1),
{
    first_line_end(s, i, e);
}

proof fn first_line_end(s: Seq<char>, i: int, e: int)
    requires
        0 <= i <= e < s.len(),
        s[e] == '\n' || s[e] == '\r',
        forall|k: int| i <= k < e ==> s[k] != '\n' && s[k] != '\r',
    ensures
        line_end(s, i) == e,
    decreases e - i,
{
    if i < e {
        first_line_end(s, i + 1, e);
    }
}

/// All of what a server says is told, and bytes that are no text say nothing.
pub proof fn all_is_said(bytes: Seq<u8>)
    ensures
        text_in(bytes) is None ==> spoken(bytes).len() == 0,
        text_in(bytes) matches Some(s) ==> spoken(bytes) == spoken_from(s, 0),
{
}

// ── Requests and steps ───────────────────

/// What is asked for is what is stated of it.
pub proof fn requests_are_what_they_say(r: RemoteRequest)
    ensures
        match r {
            RemoteRequest::ListRemotes(s) => r@ == RemoteRequestView::ListRemotes(s@),
            RemoteRequest::ReadRemote(s) => r@ == RemoteRequestView::ReadRemote(s@),
            RemoteRequest::Fetch { url, refspecs, host } => r@ == (RemoteRequestView::Fetch {
                url: url@,
                refspecs: texts(refspecs@),
                host: opt_host_view(host),
            }),
            RemoteRequest::ReadHead(s) => r@ == RemoteRequestView::ReadHead(s@),
            RemoteRequest::FindReference(s) => r@ == RemoteRequestView::FindReference(s@),
            RemoteRequest::PeelReference(s) => r@ == RemoteRequestView::PeelReference(s@),
            RemoteRequest::StartRebase(s) => r@ == RemoteRequestView::StartRebase(s@),
            RemoteRequest::NextPick => r@ is NextPick,
            RemoteRequest::CheckConflicts => r@ is CheckConflicts,
            RemoteRequest::CommitPick => r@ is CommitPick,
            RemoteRequest::AbortRebase => r@ is AbortRebase,
            RemoteRequest::FinishRebase => r@ is FinishRebase,
            RemoteRequest::ReadOrigin => r@ is ReadOrigin,
            RemoteRequest::Push { url, refspec, host } => r@ == (RemoteRequestView::Push {
                url: url@,
                refspec: refspec@,
                host: opt_host_view(host),
            }),
        },
{
}

/// A step is stated as what it is.
pub proof fn steps_are_what_they_say(s: RemoteStep, e: ProgressEvent)
    ensures
        match s {
            RemoteStep::Ask(r) => s@ == RemoteStepView::Ask(r@),
            RemoteStep::Done => s@ is Done,
            RemoteStep::Failed(e) => s@ == RemoteStepView::Failed(e@),
        },
        match e {
            ProgressEvent::Stage(t) => e@ == EventView::Stage(t@),
            ProgressEvent::Sideband(t) => e@ == EventView::Sideband(t@),
            ProgressEvent::Tip(t) => e@ == EventView::Tip(t@),
            ProgressEvent::RebaseStep { current, total } => e@ == (EventView::RebaseStep {
                current,
                total,
            }),
            ProgressEvent::PushTransfer { current, total, bytes } => e@
                == (EventView::PushTransfer { current, total, bytes }),
            ProgressEvent::Transfer {
                received_bytes,
                indexed_objects,
                received_objects,
                total_objects,
            } => e@ == (EventView::Transfer {
                received_bytes,
                indexed_objects,
                received_objects,
                total_objects,
            }),
        },
{
}

} // verus!
