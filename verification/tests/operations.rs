use gitatlas::error::AppError;
use gitatlas::git::operations::{
    agent_socket, fetch_repo, fetch_repo_with_progress, pull_rebase_repo_with_progress,
    push_repo_with_progress, sideband_lines, tip_label, ProgressEvent, RemoteReply, RemoteRequest,
    RemoteStep, RemoteTask, Turn,
};
use ssh2_config::{ParseRule, SshConfig};

fn stages(turn: &Turn) -> Vec<String> {
    turn.events
        .iter()
        .map(|e| match e {
            ProgressEvent::Stage(s) => s.clone(),
            ProgressEvent::RebaseStep { current, total } => format!("{}/{}", current, total),
            other => panic!("{:?}", other),
        })
        .collect()
}

fn step(t: RemoteTask, reply: RemoteReply) -> (RemoteTask, Turn) {
    assert!(t.accepts(&reply));
    t.advance(reply, None, None)
}

fn remote(url: &str) -> RemoteReply {
    RemoteReply::Remote {
        url: Some(url.to_string()),
        refspecs: vec![Some("+refs/heads/*:refs/remotes/o/*".to_string()), None],
    }
}

fn failed(s: &str) -> RemoteReply {
    RemoteReply::Failed(AppError::Git(s.to_string()))
}

#[test]
fn a_fetch_goes_through_all_remotes() {
    let (t, turn) = fetch_repo_with_progress("/r", true);
    assert!(matches!(&turn.step, RemoteStep::Ask(RemoteRequest::ListRemotes(p)) if p == "/r"));
    assert!(turn.events.is_empty());
    let names = vec![Some("origin".to_string()), None, Some("fork".to_string())];
    let (t, turn) = step(t, RemoteReply::Names(names));
    assert_eq!(stages(&turn), ["fetching origin"]);
    assert!(matches!(&turn.step, RemoteStep::Ask(RemoteRequest::ReadRemote(n)) if n == "origin"));
    let (t, turn) = step(t, remote("https://h/p"));
    assert!(turn.events.is_empty());
    match &turn.step {
        RemoteStep::Ask(RemoteRequest::Fetch { url, refspecs, host }) => {
            assert_eq!(url, "https://h/p");
            assert_eq!(refspecs, &vec!["+refs/heads/*:refs/remotes/o/*".to_string()]);
            assert!(host.is_none());
        }
        _ => panic!(),
    }
    let (t, turn) = step(t, RemoteReply::Done);
    assert_eq!(stages(&turn), ["fetching fork"]);
    let (t, _) = step(t, remote("git@h:p"));
    let (t, turn) = step(t, RemoteReply::Done);
    assert!(matches!(turn.step, RemoteStep::Done));
    assert!(!t.accepts(&RemoteReply::Done));
}

#[test]
fn a_fetch_that_nobody_watches_is_silent() {
    let (t, _) = fetch_repo("/r");
    let (t, turn) = step(t, RemoteReply::Names(vec![Some("origin".to_string())]));
    assert!(turn.events.is_empty());
    let (_, turn) = step(t, failed("x"));
    assert!(matches!(&turn.step, RemoteStep::Failed(e) if e.text() == "Git error: x"));
}

#[test]
fn a_fetch_follows_the_ssh_configuration() {
    let c = SshConfig::default()
        .parse(&mut "Host work\n  HostName real\n".as_bytes(), ParseRule::ALLOW_UNKNOWN_FIELDS)
        .expect("parse");
    let (t, _) = fetch_repo_with_progress("/r", true);
    let (t, _) = step(t, RemoteReply::Names(vec![Some("origin".to_string())]));
    let (_, turn) = t.advance(remote("me@work:p"), Some(&c), None);
    assert_eq!(stages(&turn), ["ssh_config: work:p → real:p"]);
    assert!(matches!(&turn.step, RemoteStep::Ask(RemoteRequest::Fetch { url, host: Some(h), .. })
        if url == "me@real:p" && h.hostname == "real"));
}

#[test]
fn a_pull_fetches_and_rebases() {
    let (t, _) = pull_rebase_repo_with_progress("/r", true);
    let (t, turn) = step(t, RemoteReply::Names(vec![]));
    assert!(matches!(&turn.step, RemoteStep::Ask(RemoteRequest::ReadHead(p)) if p == "/r"));
    let (t, turn) = step(t, RemoteReply::Head(Some("main".to_string())));
    assert!(matches!(&turn.step, RemoteStep::Ask(RemoteRequest::FindReference(r))
        if r == "refs/remotes/origin/main"));
    let (t, turn) = step(t, RemoteReply::Done);
    assert!(matches!(&turn.step, RemoteStep::Ask(RemoteRequest::PeelReference(_))));
    let (t, turn) = step(t, RemoteReply::Done);
    assert_eq!(stages(&turn), ["rebasing onto origin/main"]);
    assert!(matches!(&turn.step, RemoteStep::Ask(RemoteRequest::StartRebase(_))));
    let (t, _) = step(t, RemoteReply::Picks(2));
    let (t, turn) = step(t, RemoteReply::Picked(true));
    assert_eq!(stages(&turn), ["1/2"]);
    let (t, turn) = step(t, RemoteReply::Conflicts(false));
    assert!(matches!(turn.step, RemoteStep::Ask(RemoteRequest::CommitPick)));
    let (t, turn) = step(t, RemoteReply::Done);
    assert!(matches!(turn.step, RemoteStep::Ask(RemoteRequest::NextPick)));
    let (t, turn) = step(t, RemoteReply::Picked(true));
    assert_eq!(stages(&turn), ["2/2"]);
    let (t, _) = step(t, RemoteReply::Conflicts(false));
    let (t, _) = step(t, RemoteReply::Done);
    let (t, turn) = step(t, RemoteReply::Picked(false));
    assert!(matches!(turn.step, RemoteStep::Ask(RemoteRequest::FinishRebase)));
    let (_, turn) = step(t, RemoteReply::Done);
    assert!(matches!(turn.step, RemoteStep::Done));
}

fn rebasing() -> RemoteTask {
    let (t, _) = pull_rebase_repo_with_progress("/r", false);
    let (t, _) = step(t, RemoteReply::Names(vec![]));
    let (t, _) = step(t, RemoteReply::Head(Some("main".to_string())));
    t
}

#[test]
fn a_pull_aborts_on_conflicts() {
    let (t, _) = step(rebasing(), RemoteReply::Done);
    let (t, _) = step(t, RemoteReply::Done);
    let (t, _) = step(t, RemoteReply::Picks(1));
    let (t, _) = step(t, RemoteReply::Picked(true));
    let (t, turn) = step(t, RemoteReply::Conflicts(true));
    assert!(matches!(turn.step, RemoteStep::Ask(RemoteRequest::AbortRebase)));
    let (_, turn) = step(t, RemoteReply::Done);
    assert!(matches!(&turn.step, RemoteStep::Failed(e)
        if e.text() == "Rebase aborted: conflicts detected"));
}

#[test]
fn a_pull_needs_an_upstream() {
    let (_, turn) = step(rebasing(), failed("gone"));
    assert!(matches!(&turn.step, RemoteStep::Failed(e)
        if e.text() == "No upstream branch found for main"));
}

#[test]
fn a_push_sends_the_branch_to_itself() {
    let (t, turn) = push_repo_with_progress("/r", true);
    assert!(matches!(&turn.step, RemoteStep::Ask(RemoteRequest::ReadHead(p)) if p == "/r"));
    let (t, turn) = step(t, RemoteReply::Head(Some("topic".to_string())));
    assert!(matches!(turn.step, RemoteStep::Ask(RemoteRequest::ReadOrigin)));
    let (t, turn) = step(
        t,
        RemoteReply::Origin { push_url: Some("https://push".to_string()), url: Some("u".to_string()) },
    );
    assert_eq!(stages(&turn), ["pushing topic → origin"]);
    assert!(matches!(&turn.step, RemoteStep::Ask(RemoteRequest::Push { url, refspec, host: None })
        if url == "https://push" && refspec == "refs/heads/topic:refs/heads/topic"));
    let (_, turn) = step(t, RemoteReply::Done);
    assert!(matches!(turn.step, RemoteStep::Done));
}

#[test]
fn a_push_needs_a_branch_and_an_origin() {
    let (t, _) = push_repo_with_progress("/r", true);
    let (_, turn) = step(t, RemoteReply::Head(None));
    assert!(matches!(&turn.step, RemoteStep::Failed(e) if e.text() == "HEAD is not on a branch"));
    let (t, _) = push_repo_with_progress("/r", true);
    let (t, _) = step(t, RemoteReply::Head(Some("b".to_string())));
    let (_, turn) = step(t, failed("x"));
    assert!(matches!(&turn.step, RemoteStep::Failed(e) if e.text() == "No 'origin' remote found"));
}

#[test]
fn server_lines_are_trimmed_and_split() {
    let data = "remote: a \r\n\n  b\rc".as_bytes().to_vec();
    assert_eq!(sideband_lines(&data), ["remote: a", "b", "c"]);
    assert_eq!(sideband_lines(&"größe\n".as_bytes().to_vec()), ["größe"]);
    assert!(sideband_lines(&vec![0xff, 0x61]).is_empty());
    assert!(sideband_lines(&vec![]).is_empty());
}

#[test]
fn tips_are_labelled() {
    let zero = "0".repeat(40);
    let a = "0123456789abcdef0123456789abcdef01234567";
    let b = "fedcba98765432100123456789abcdef01234567";
    assert_eq!(tip_label("refs/x", &zero, a), "refs/x (new)");
    assert_eq!(tip_label("refs/x", a, &zero), "refs/x (deleted)");
    assert_eq!(tip_label("refs/x", a, b), "refs/x 0123456..fedcba9");
}

#[test]
fn agents_listen_under_their_directory() {
    assert_eq!(
        agent_socket("com.apple.launchd.abc").as_deref(),
        Some("/private/tmp/com.apple.launchd.abc/Listeners")
    );
    assert_eq!(agent_socket("other"), None);
}
