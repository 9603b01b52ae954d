use gitatlas::git::credentials::{
    candidate_keys, discover_ssh_keys, offer_stage, try_next_credential, AllowedTypes, CredState,
    Offer,
};
use gitatlas::git::remote_url::{
    apply_ssh_config, normalize_remote_url, redact_userinfo, rewrite_url, GitUrl,
};
use gitatlas::git::ssh_config::{expand_tilde, resolve, resolve_with, HostSettings, ResolvedHost};
use ssh2_config::{ParseRule, SshConfig};

fn config(text: &str) -> SshConfig {
    let rules = ParseRule::ALLOW_UNKNOWN_FIELDS | ParseRule::ALLOW_UNSUPPORTED_FIELDS;
    SshConfig::default().parse(&mut text.as_bytes(), rules).expect("parse")
}

fn own(v: &[&str]) -> Vec<String> {
    v.iter().map(|s| s.to_string()).collect()
}

fn host(name: &str, user: Option<&str>, port: Option<u16>, keys: &[&str], only: bool) -> ResolvedHost {
    ResolvedHost {
        hostname: name.to_string(),
        user: user.map(|u| u.to_string()),
        port,
        identity_files: own(keys),
        identities_only: only,
    }
}

fn allowed(ssh_key: bool, memory: bool, plain: bool, username: bool, default: bool) -> AllowedTypes {
    AllowedTypes {
        ssh_key,
        ssh_memory: memory,
        user_pass_plaintext: plain,
        username,
        default,
    }
}

#[test]
fn expand_tilde_leaves_absolute_paths_untouched() {
    assert_eq!(expand_tilde("/etc/ssh/id_rsa", Some("/home/me")), "/etc/ssh/id_rsa");
}

#[test]
fn expand_tilde_leaves_relative_paths_untouched() {
    assert_eq!(expand_tilde("keys/id_rsa", Some("/home/me")), "keys/id_rsa");
}

#[test]
fn expand_tilde_does_not_expand_bare_tilde() {
    assert_eq!(expand_tilde("~weird", Some("/home/me")), "~weird");
}

#[test]
fn expand_tilde_expands_home_prefix() {
    assert_eq!(expand_tilde("~/.ssh/id_ed25519", Some("/home/me")), "/home/me/.ssh/id_ed25519");
}

#[test]
fn a_host_is_resolved_through_its_rules() {
    let c = config(
        "Host work\n  HostName git.example.com\n  User deploy\n  Port 2222\n  IdentityFile /keys/work\n  IdentitiesOnly yes\n",
    );
    let r = resolve("work", Some(&c), Some("/home/me"));
    assert_eq!(r.hostname, "git.example.com");
    assert_eq!(r.user.as_deref(), Some("deploy"));
    assert_eq!(r.port, Some(2222));
    assert_eq!(r.identity_files, own(&["/keys/work"]));
    assert!(r.identities_only);
}

#[test]
fn an_unknown_host_keeps_its_name() {
    let c = config("Host work\n  HostName git.example.com\n");
    let r = resolve("other", Some(&c), Some("/home/me"));
    assert_eq!(r.hostname, "other");
    assert_eq!(r.user, None);
    assert_eq!(r.port, None);
    assert!(!r.identities_only);
    let none = resolve("other", None, Some("/home/me"));
    assert_eq!(none.hostname, "other");
    assert!(none.identity_files.is_empty());
}

#[test]
fn settings_are_read_one_by_one() {
    let settings = HostSettings {
        host_name: None,
        user: Some("u".to_string()),
        port: None,
        identity_file: Some(own(&["~/.ssh/a", "/b"])),
        extra: Some(own(&["no"])),
    };
    let r = resolve_with("h", Some(settings), Some("/home/me"));
    assert_eq!(r.hostname, "h");
    assert_eq!(r.user.as_deref(), Some("u"));
    assert_eq!(r.identity_files, own(&["/home/me/.ssh/a", "/b"]));
    assert!(!r.identities_only);
}

#[test]
fn urls_are_taken_apart() {
    let u = GitUrl::parse("ssh://me@host:2222/a/b").unwrap();
    assert_eq!(u.scheme.as_deref(), Some("ssh"));
    assert_eq!(u.user.as_deref(), Some("me"));
    assert_eq!(u.host, "host");
    assert_eq!(u.port, Some(2222));
    assert_eq!(u.tail, "/a/b");
    assert!(u.is_ssh());

    let s = GitUrl::parse("git@host:a/b.git").unwrap();
    assert_eq!(s.scheme, None);
    assert_eq!(s.user.as_deref(), Some("git"));
    assert_eq!(s.host, "host");
    assert_eq!(s.tail, ":a/b.git");
    assert!(s.is_ssh());

    let h = GitUrl::parse("https://host/a").unwrap();
    assert_eq!(h.scheme.as_deref(), Some("https"));
    assert_eq!(h.tail, "://host/a");
    assert!(!h.is_ssh());

    assert!(GitUrl::parse("/local/path").is_none());
    assert!(GitUrl::parse("./a:b").is_none());
    assert!(GitUrl::parse(":b").is_none());
    assert!(GitUrl::parse(r"C:\path").is_none());
    let drive = GitUrl::parse(r"C:\a://b").unwrap();
    assert_eq!((drive.scheme.as_deref(), drive.tail.as_str()), (Some(r"C:\a"), "://b"));
    let bot = GitUrl::parse("bot[1]@host:path").unwrap();
    assert_eq!(bot.user.as_deref(), Some("bot[1]"));
    assert_eq!((bot.host.as_str(), bot.tail.as_str()), ("host", ":path"));
    assert_eq!(GitUrl::parse("ho[s]t:path").unwrap().host, "ho[s]t");
    assert_eq!(GitUrl::parse("C:path").unwrap().host, "C");
    assert!(GitUrl::parse("[::1]:p").is_none());
}

#[test]
fn urls_are_rebuilt() {
    let s = GitUrl::parse("git@host:a/b.git").unwrap();
    assert_eq!(s.rebuild("host", None, None), "git@host:a/b.git");
    assert_eq!(s.rebuild("real", Some("you"), None), "you@real:a/b.git");
    assert_eq!(s.rebuild("real", None, Some(2222)), "ssh://git@real:2222/a/b.git");
    let u = GitUrl::parse("ssh://host/a").unwrap();
    assert_eq!(u.rebuild("host", None, None), "ssh://host/a");
    assert_eq!(u.rebuild("real", Some("me"), Some(22)), "ssh://me@real:22/a");
    let p = GitUrl::parse("ssh://me:pw@host:2222/a").unwrap();
    assert_eq!(p.rebuild("host", None, None), "ssh://me:pw@host:2222/a");
    let g = GitUrl::parse("https://github.com/me/repo.git").unwrap();
    assert_eq!(g.rebuild("other.example", None, None), "https://github.com/me/repo.git");
    assert_eq!(g.rebuild("x", Some("me"), Some(22)), "https://github.com/me/repo.git");
}

#[test]
fn addresses_follow_the_configuration() {
    let c = config("Host work\n  HostName git.example.com\n  User deploy\n  Port 2222\n");
    let (url, h) = apply_ssh_config("work:team/repo.git", Some(&c), Some("/home/me"));
    assert_eq!(url, "ssh://deploy@git.example.com:2222/team/repo.git");
    assert_eq!(h.unwrap().hostname, "git.example.com");

    let (url, h) = apply_ssh_config("git@plain:team/repo.git", Some(&c), Some("/home/me"));
    assert_eq!(url, "git@plain:team/repo.git");
    assert_eq!(h.unwrap().hostname, "plain");

    let (url, h) = apply_ssh_config("https://work/team", Some(&c), None);
    assert_eq!(url, "https://work/team");
    assert!(h.is_none());

    let (url, h) = apply_ssh_config("work:team", None, None);
    assert_eq!(url, "work:team");
    assert!(h.is_some());
}

#[test]
fn addresses_are_rewritten_only_where_needed() {
    let u = GitUrl::parse("me@host:p").unwrap();
    assert_eq!(rewrite_url("me@host:p", &u, &host("host", Some("you"), None, &[], false)), "me@host:p");
    assert_eq!(rewrite_url("me@host:p", &u, &host("real", None, None, &[], false)), "me@real:p");
    assert_eq!(
        rewrite_url("me@host:p", &u, &host("host", None, Some(7), &[], false)),
        "ssh://me@host:7/p"
    );
}

#[test]
fn users_are_not_shown() {
    assert_eq!(redact_userinfo("ssh://me@host/p"), "ssh://host/p");
    assert_eq!(redact_userinfo("ssh://host/p"), "ssh://host/p");
    assert_eq!(redact_userinfo("me@host:p"), "host:p");
    assert_eq!(
        redact_userinfo("https://me@github.com/me/r.git"),
        "https://github.com/me/r.git"
    );
    assert_eq!(redact_userinfo("https://me:pw@host:8/a@b"), "https://host:8/a@b");
    assert_eq!(redact_userinfo("https://host/a@b"), "https://host/a@b");
    assert_eq!(redact_userinfo("host:a@b"), "host:a@b");
    assert_eq!(redact_userinfo("/a@b:c"), "/a@b:c");
}

#[test]
fn remotes_have_web_addresses() {
    assert_eq!(normalize_remote_url("git@github.com:me/repo.git"), "https://github.com/me/repo");
    assert_eq!(normalize_remote_url("https://gitlab.com/me/repo.git"), "https://gitlab.com/me/repo");
    assert_eq!(normalize_remote_url("https://x/y"), "https://x/y");
}

#[test]
fn keys_are_looked_for_by_name_and_by_public_half() {
    let entries = own(&["/s/work.pub", "/s/id_rsa.pub", "/s/config"]);
    let candidates = candidate_keys("/s", &entries);
    assert_eq!(
        candidates,
        own(&[
            "/s/id_ed25519",
            "/s/id_ed25519_sk",
            "/s/id_ecdsa",
            "/s/id_ecdsa_sk",
            "/s/id_rsa",
            "/s/id_dsa",
            "/s/work",
            "/s/id_rsa",
        ])
    );
    let exist = vec![true, false, false, false, true, false, true, true];
    let keys = discover_ssh_keys(candidates, &exist);
    assert_eq!(keys, own(&["/s/id_ed25519", "/s/id_rsa", "/s/work"]));
}

#[test]
fn configured_keys_come_first() {
    let found = own(&["/s/a", "/s/b"]);
    let s = CredState::new(Some(host("h", Some("me"), None, &["/s/b"], false)), found);
    assert_eq!(s.ssh_keys, own(&["/s/b", "/s/a"]));
    let only = CredState::new(Some(host("h", None, None, &["/s/b"], true)), own(&["/s/a"]));
    assert_eq!(only.ssh_keys, own(&["/s/b"]));
    assert!(only.identities_only);
    let plain = CredState::new(None, own(&["/s/a"]));
    assert_eq!(plain.ssh_keys, own(&["/s/a"]));
}

#[test]
fn every_method_is_offered_once() {
    let mut s = CredState::new(Some(host("h", Some("me"), None, &[], false)), own(&["/s/a", "/s/b"]));
    let all = allowed(true, true, true, true, true);
    let a = try_next_credential(&mut s, None, all, false);
    assert!(matches!(&a, Offer::Agent(u) if u == "me"));
    assert_eq!(offer_stage(&a).as_deref(), Some("auth: ssh-agent (me)"));
    let b = try_next_credential(&mut s, None, all, false);
    assert!(matches!(&b, Offer::Key { user, private, public }
        if user == "me" && private == "/s/a" && public == "/s/a.pub"));
    assert_eq!(offer_stage(&b).as_deref(), Some("auth: /s/a"));
    let c = try_next_credential(&mut s, Some("you"), all, true);
    assert!(matches!(&c, Offer::Key { user, private, .. } if user == "you" && private == "/s/b"));
    assert_eq!(s.attempts, 2);
    let d = try_next_credential(&mut s, None, all, false);
    assert!(matches!(d, Offer::Helper));
    assert_eq!(offer_stage(&d).as_deref(), Some("auth: credential helper"));
    let e = try_next_credential(&mut s, Some("you"), all, false);
    assert!(matches!(&e, Offer::Username(u) if u == "you"));
    assert_eq!(offer_stage(&e).as_deref(), Some("auth: username (you)"));
    let f = try_next_credential(&mut s, None, all, false);
    assert!(matches!(f, Offer::Default));
    assert_eq!(offer_stage(&f).as_deref(), Some("auth: default"));
    let g = try_next_credential(&mut s, None, all, false);
    assert!(matches!(&g, Offer::Nothing(why) if why
        == "auth: all methods rejected (ssh-agent, ~/.ssh keys, credential helper, default)"));
    assert_eq!(offer_stage(&g), None);
}

#[test]
fn nothing_fits_what_the_server_accepts() {
    let mut s = CredState::new(None, own(&["/s/a"]));
    let none = allowed(false, false, false, true, false);
    let a = try_next_credential(&mut s, None, none, false);
    assert!(matches!(&a, Offer::Nothing(why) if why
        == "auth: no usable authentication method advertised by server"));
    let memory = allowed(false, true, false, false, false);
    let b = try_next_credential(&mut s, None, memory, false);
    assert!(matches!(&b, Offer::Agent(u) if u == "git"));
}

#[test]
fn identities_only_skips_the_agent() {
    let mut s = CredState::new(Some(host("h", None, None, &["/s/k"], true)), own(&["/s/a"]));
    let all = allowed(true, true, false, false, false);
    let a = try_next_credential(&mut s, None, all, false);
    assert!(matches!(&a, Offer::Key { private, .. } if private == "/s/k"));
    let b = try_next_credential(&mut s, None, all, false);
    assert!(matches!(&b, Offer::Nothing(why) if why == "auth: all methods rejected (~/.ssh keys)"));
}

#[test]
fn attempts_are_limited() {
    let keys: Vec<String> = (0..40).map(|i| format!("/s/{}", i)).collect();
    let mut s = CredState::new(None, keys);
    let ssh = allowed(true, false, false, false, false);
    for _ in 0..16 {
        let o = try_next_credential(&mut s, None, ssh, false);
        assert!(!matches!(o, Offer::Nothing(_)));
    }
    let o = try_next_credential(&mut s, None, ssh, false);
    assert!(matches!(&o, Offer::Nothing(why) if why
        == "auth: too many credential attempts — giving up"));
}

#[test]
fn a_full_counter_forgets_nothing() {
    let mut s = CredState::new(None, own(&["/s/a"]));
    s.attempts = usize::MAX;
    let all = allowed(true, true, true, true, true);
    let o = try_next_credential(&mut s, None, all, false);
    assert!(matches!(&o, Offer::Nothing(why) if why
        == "auth: too many credential attempts — giving up"));
    assert_eq!((s.attempts, s.ssh_key_idx, s.tried_agent), (usize::MAX, 0, false));
    let o = try_next_credential(&mut s, None, all, true);
    assert!(matches!(o, Offer::Agent(_)));
    let o = try_next_credential(&mut s, None, all, true);
    assert!(matches!(o, Offer::Key { .. }));
    assert_eq!((s.ssh_key_idx, s.tried_agent), (1, true));
}
