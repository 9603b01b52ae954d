//! How a remote is reached: its address, the host behind it, and what is
//! offered to log in there.
use vstd::prelude::*;
use vstd::string::*;

use crate::git::credentials::{candidate_keys, discover_ssh_keys, existing, holds_path, offer_stage,
    paired_keys, ssh_dir, try_next_credential, with_new_paths, AllowedTypes, CredState, Offer};
use crate::git::remote_url::{apply_ssh_config, normalize_remote_url, redact_userinfo, rewrite_url,
    url_parts, GitUrl, GitUrlView};
use crate::git::ssh_config::{expand_tilde, resolve, resolve_with, HostSettings, ResolvedHost};
use crate::laws::words::{numbers_read_back, ports_read_back, the_first_mark_cuts,
    the_last_mark_cuts};
use crate::text::{ascii_lowercase, decimal_of, has_text, occurs_at, texts};
use ssh2_config::SshConfig;

verus! {

// ── Addresses ────────────────────────────

/// What a user before a host looks like in an address.
pub open spec fn user_part(user: Option<Seq<char>>) -> Seq<char> {
    match user {
        Some(u) => u + seq!['@'],
        None => seq![],
    }
}

/// What a port behind a host looks like in an address.
pub open spec fn port_part(port: Option<u16>) -> Seq<char> {
    match port {
        Some(p) => seq![':'] + decimal_of(p as nat),
        None => seq![],
    }
}

/// An address with the scheme of ssh is read as the user before the `@`, the
/// host, the port behind the `:` and the path from the first `/` on.
pub proof fn ssh_addresses_are_read(
    user: Option<Seq<char>>,
    host: Seq<char>,
    port: Option<u16>,
    path: Seq<char>,
)
    requires
        user matches Some(u) ==> !u.contains('/'),
        !host.contains('/') && !host.contains('@') && !host.contains(':'),
        path.len() == 0 || path[0] == '/',
    ensures
        url_parts("ssh://"@ + user_part(user) + host + port_part(port) + path) == Some(
            GitUrlView { scheme: Some("ssh"@), user, host, port, tail: path },
        ),
{
    let url = "ssh://"@ + user_part(user) + host + port_part(port) + path;
    let hostport = host + port_part(port);
    let authority = user_part(user) + hostport;
    let rest = authority + path;
    assert(url.skip("ssh://"@.len() as int) =~= rest);
    assert("ssh://"@.is_prefix_of(url));
    if let Some(p) = port {
        ports_read_back(p);
        numbers_read_back(p as nat);
        let d = decimal_of(p as nat);
        assert(!d.contains(':') && !d.contains('/') && !d.contains('@')) by {
            assert forall|i: int| 0 <= i < d.len() implies d[i] != ':' && d[i] != '/' && d[i]
                != '@' by {
                assert('0' <= d[i] <= '9');
            }
        }
        the_last_mark_cuts(host, ':', d);
        assert(hostport =~= host + seq![':'] + d);
        assert forall|i: int| 0 <= i < hostport.len() implies hostport[i] != '/' && hostport[i]
            != '@' by {
            if i < host.len() {
                assert(host.contains(host[i]));
            } else if i > host.len() {
                assert(hostport[i] == d[i - host.len() - 1]);
                assert(d.contains(d[i - host.len() - 1]));
            }
        }
    } else {
        the_last_mark_cuts(seq![], ':', host);
        assert(hostport =~= host);
        assert forall|i: int| 0 <= i < hostport.len() implies hostport[i] != '/' && hostport[i]
            != '@' by {
            assert(host.contains(host[i]));
        }
    }
    if let Some(u) = user {
        the_last_mark_cuts(u, '@', hostport);
        assert(authority =~= u + seq!['@'] + hostport);
        assert forall|i: int| 0 <= i < authority.len() implies authority[i] != '/' by {
            if i < u.len() {
                assert(u.contains(u[i]));
            } else if i > u.len() {
                assert(authority[i] == hostport[i - u.len() - 1]);
            }
        }
    } else {
        the_last_mark_cuts(seq![], '@', hostport);
        assert(authority =~= hostport);
    }
    rest.index_of_first_ensures('/');
    if path.len() == 0 {
        assert(rest =~= authority);
        assert(!rest.contains('/'));
        assert(path =~= seq![]);
    } else {
        assert(rest[authority.len() as int] == '/');
        assert(rest.contains('/'));
        let i = rest.index_of_first('/').unwrap();
        if i < authority.len() {
            assert(rest[i] == authority[i]);
        }
        assert(i == authority.len());
        assert(rest.take(i) =~= authority);
        assert(rest.skip(i) =~= path);
    }
}

/// An address without a scheme is read as the user before the `@`, the host,
/// and the path with the `:` before it.
pub proof fn short_addresses_are_read(user: Option<Seq<char>>, host: Seq<char>, path: Seq<char>)
    requires
        user matches Some(u) ==> !u.contains('/') && !u.contains(':'),
        !host.contains('/') && !host.contains('@') && !host.contains(':'),
        (user_part(user) + host).len() > 1,
        (user_part(user) + host)[0] != '[',
        !has_text(user_part(user) + host + seq![':'] + path, "://"@),
    ensures
        url_parts(user_part(user) + host + seq![':'] + path) == Some(
            GitUrlView { scheme: None, user, host, port: None, tail: seq![':'] + path },
        ),
{
    reveal_strlit("://");
    reveal_strlit("ssh://");
    reveal_strlit(":");
    let authority = user_part(user) + host;
    let url = authority + seq![':'] + path;
    assert forall|i: int| 0 <= i < host.len() implies host[i] != '/' && host[i] != '@' && host[i]
        != ':' by {
        assert(host.contains(host[i]));
    }
    if let Some(u) = user {
        assert forall|i: int| 0 <= i < u.len() implies u[i] != '/' && u[i] != ':' by {
            assert(u.contains(u[i]));
        }
        assert(authority =~= u + seq!['@'] + host);
        the_last_mark_cuts(u, '@', host);
    } else {
        assert(authority =~= host);
        the_last_mark_cuts(seq![], '@', host);
    }
    assert(!authority.contains(':') && !authority.contains('/'));
    the_first_mark_cuts(authority, ':', path);
    assert(authority[0] == url[0]);
    assert(authority[1] == url[1]);
    if "ssh://"@.is_prefix_of(url) {
        assert forall|i: int| 0 <= i < 6 implies url[i] == "ssh://"@[i] by {
            assert(url.subrange(0, 6)[i] == url[i]);
        }
        assert(url.subrange(3, 6) =~= "://"@);
        assert(occurs_at(url, "://"@, 3));
    }
    assert(seq![':'] + path =~= ":"@ + path);
}

/// Paths are no addresses, those on a drive among them, and neither is what
/// begins with a bracket or has no colon.
pub proof fn paths_are_no_addresses(url: &str, r: Option<GitUrl>)
    requires
        !has_text(url@, "://"@),
        call_ensures(GitUrl::parse, (url,), r),
    ensures
        !url@.contains(':') ==> r is None,
        url@.len() > 0 && (url@[0] == '[' || url@[0] == '/' || url@[0] == ':') ==> r is None,
        url@.len() >= 3 && ('a' <= url@[0] <= 'z' || 'A' <= url@[0] <= 'Z') && url@[1] == ':'
            && url@[2] == '\\' ==> r is None,
{
    reveal_strlit("://");
    reveal_strlit("ssh://");
    let s = url@;
    if "ssh://"@.is_prefix_of(s) {
        assert forall|i: int| 0 <= i < 6 implies s[i] == "ssh://"@[i] by {
            assert(s.subrange(0, 6)[i] == s[i]);
        }
        assert(s.subrange(3, 6) =~= "://"@);
        assert(occurs_at(s, "://"@, 3));
    }
    s.index_of_first_ensures(':');
    if s.len() > 0 && s[0] == '/' {
        if let Some(i) = s.index_of_first(':') {
            assert(s.take(i)[0] == '/');
            assert(s.take(i).contains('/'));
        }
    }
    assert(crate::git::remote_url::opt_url_view(r) is None <==> r is None);
}

/// An address is written anew from its parts and what the host's settings say:
/// the host name is theirs, and so are the user and the port where they give
/// one. A port makes an `ssh://` address of one without a scheme.
pub proof fn addresses_are_written_anew(
    parts: GitUrl,
    hostname: &str,
    user: Option<&str>,
    port: Option<u16>,
    r: String,
)
    requires
        call_ensures(GitUrl::rebuild, (&parts, hostname, user, port), r),
    ensures
        ({
            let at = match (user, parts.user) {
                (Some(u), _) => u@ + seq!['@'],
                (None, Some(u)) => u@ + seq!['@'],
                (None, None) => seq![],
            };
            match parts.scheme {
                Some(s) => if s@ == "ssh"@ {
                    r@ == "ssh://"@ + at + hostname@ + port_part(
                        match port {
                            Some(p) => Some(p),
                            None => parts.port,
                        },
                    ) + parts.tail@
                } else {
                    r@ == s@ + parts.tail@
                },
                None => match port {
                    Some(p) => r@ == "ssh://"@ + at + hostname@ + seq![':'] + decimal_of(p as nat)
                        + crate::text::replaced_first(parts.tail@, ':', '/'),
                    None => r@ == at + hostname@ + parts.tail@,
                },
            }
        }),
{
    reveal_strlit("@");
    reveal_strlit(":");
    assert("@"@ =~= seq!['@']);
    assert(":"@ =~= seq![':']);
    if let Some(p) = port {
        let at = crate::git::remote_url::user_prefix(
            crate::git::remote_url::or_else(
                crate::git::ssh_config::opt_str_view(user),
                crate::text::opt_view(parts.user),
            ),
        );
        let front = "ssh://"@ + at + hostname@;
        assert(front + (seq![':'] + decimal_of(p as nat)) =~= front + seq![':'] + decimal_of(
            p as nat,
        ));
    }
}

/// An address is written anew exactly where the settings say another host
/// name, or a user or a port that the address lacks.
pub proof fn only_other_settings_rewrite(
    url: &str,
    parts: GitUrl,
    host: ResolvedHost,
    user: Option<&str>,
    name: &str,
    r: String,
    rebuilt: String,
)
    requires
        call_ensures(rewrite_url, (url, &parts, &host), r),
        crate::text::opt_view(host.user) == crate::git::ssh_config::opt_str_view(user),
        name@ == host.hostname@,
        call_ensures(GitUrl::rebuild, (&parts, name, user, host.port), rebuilt),
    ensures
        host.hostname@ == parts.host@ && (parts.user is Some || host.user is None) && (
        parts.port is Some || host.port is None) ==> r@ == url@,
        host.hostname@ != parts.host@ || (parts.user is None && host.user is Some) || (
        parts.port is None && host.port is Some) ==> r@ == rebuilt@,
{
    assert(parts@.user is None <==> parts.user is None);
    assert(host@.user is None <==> host.user is None);
}

/// ssh handles addresses of its own scheme and those without one, with a host
/// in them. Such an address goes to the host as it is configured, and any
/// other is left as it is.
pub proof fn hosts_are_looked_up(
    url: &str,
    config: Option<&SshConfig>,
    home: Option<&str>,
    r: (String, Option<ResolvedHost>),
    parts: Option<GitUrl>,
    name: &str,
    host: ResolvedHost,
    rewritten: String,
)
    requires
        call_ensures(apply_ssh_config, (url, config, home), r),
        call_ensures(GitUrl::parse, (url,), parts),
        parts matches Some(p) ==> name@ == p.host@ && call_ensures(
            rewrite_url,
            (url, &p, &host),
            rewritten,
        ),
        call_ensures(resolve, (name, config, home), host),
    ensures
        match parts {
            Some(p) => if (p.scheme is None || p.scheme.unwrap()@ == "ssh"@) && p.host@.len() > 0 {
                &&& r.0@ == rewritten@
                &&& r.1 matches Some(h) && h@ == host@
            } else {
                r.0@ == url@ && r.1 is None
            },
            None => r.0@ == url@ && r.1 is None,
        },
{
    let v = crate::git::remote_url::opt_url_view(parts);
    assert(v == url_parts(url@));
    if let Some(p) = parts {
        assert(v == Some(p@));
        assert(p@.is_ssh() <==> (p.scheme is None || p.scheme.unwrap()@ == "ssh"@) && p.host@.len()
            > 0);
    }
}

/// The user before the host of an address is not shown.
pub proof fn users_are_hidden(
    scheme: Seq<char>,
    user: Seq<char>,
    host: Seq<char>,
    path: Seq<char>,
    s: &str,
    r: String,
)
    requires
        !scheme.contains(':') && !scheme.contains('/') && !user.contains('/'),
        !host.contains('/') && !host.contains('@'),
        path.len() == 0 || path[0] == '/',
        s@ == scheme + "://"@ + user + seq!['@'] + host + path,
        call_ensures(redact_userinfo, (s,), r),
    ensures
        r@ == scheme + "://"@ + host + path,
{
    reveal_strlit("://");
    let url = scheme + "://"@ + user + seq!['@'] + host + path;
    assert(url.subrange(scheme.len() as int, (scheme.len() + 3) as int) =~= "://"@);
    assert(occurs_at(url, "://"@, scheme.len() as int));
    crate::text::first_is_there(url, "://"@);
    let i = crate::text::first_occurrence(url, "://"@).unwrap();
    if i < scheme.len() {
        assert(url.subrange(i, i + 3)[0] == url[i]);
        assert(scheme.contains(scheme[i]));
    }
    assert(i == scheme.len());
    let authority = user + seq!['@'] + host;
    let rest = authority + path;
    assert(url.skip(i + 3) =~= rest);
    assert forall|k: int| 0 <= k < authority.len() implies authority[k] != '/' by {
        if k < user.len() {
            assert(user.contains(user[k]));
        } else if k > user.len() {
            assert(host.contains(host[k - user.len() - 1]));
        }
    }
    the_last_mark_cuts(user, '@', host);
    rest.index_of_first_ensures('/');
    if path.len() == 0 {
        assert(rest =~= authority);
    } else {
        assert(rest[authority.len() as int] == '/');
        assert(rest.contains('/'));
        let k = rest.index_of_first('/').unwrap();
        if k < authority.len() {
            assert(rest[k] == authority[k]);
        }
        assert(rest.take(k) =~= authority);
        assert(rest.skip(k) =~= path);
    }
    assert(url.take(i + 3) + host + path =~= scheme + "://"@ + host + path);
}

/// The page of a remote: `git@host:path` becomes `https://host/path`, and
/// `.git` at the end goes away.
pub proof fn pages_are_on_the_web(host: Seq<char>, path: Seq<char>, url: &str, r: String)
    requires
        !host.contains(':') && !path.contains(':'),
        call_ensures(normalize_remote_url, (url,), r),
    ensures
        url@ == "git@"@ + host + ":"@ + path + ".git"@ ==> r@ == "https://"@ + host + "/"@ + path,
        url@ == "git@"@ + host + ":"@ + path && !(".git"@.is_suffix_of(host + "/"@ + path)) ==> r@
            == "https://"@ + host + "/"@ + path,
{
    reveal_strlit(":");
    reveal_strlit("/");
    reveal_strlit(".git");
    reveal_strlit("git@");
    assert forall|i: int| 0 <= i < host.len() implies host[i] != ':' by {
        assert(host.contains(host[i]));
    }
    assert forall|i: int| 0 <= i < path.len() implies path[i] != ':' by {
        assert(path.contains(path[i]));
    }
    let long = "git@"@ + host + ":"@ + path + ".git"@;
    let rest = host + ":"@ + path + ".git"@;
    assert("git@"@.is_prefix_of(long));
    assert(long.skip(4) =~= rest);
    let slashed = host + "/"@ + path + ".git"@;
    assert(crate::text::replaced(rest, ':', '/') =~= slashed);
    assert(".git"@.is_suffix_of(slashed)) by {
        assert(slashed.subrange(slashed.len() - 4, slashed.len() as int) =~= ".git"@);
    }
    assert(slashed.take(slashed.len() - 4) =~= host + "/"@ + path);
    assert("https://"@ + (host + "/"@ + path) =~= "https://"@ + host + "/"@ + path);
    let short = "git@"@ + host + ":"@ + path;
    assert("git@"@.is_prefix_of(short));
    assert(short.skip(4) =~= host + ":"@ + path);
    assert(crate::text::replaced(host + ":"@ + path, ':', '/') =~= host + "/"@ + path);
}

/// Any other address only loses `.git` at its end.
pub proof fn other_pages_lose_their_suffix(page: Seq<char>, url: &str, r: String)
    requires
        !("git@"@.is_prefix_of(url@)),
        call_ensures(normalize_remote_url, (url,), r),
    ensures
        url@ == page + ".git"@ ==> r@ == page,
        !(".git"@.is_suffix_of(url@)) ==> r@ == url@,
{
    reveal_strlit(".git");
    let s = page + ".git"@;
    assert(s.subrange(s.len() - 4, s.len() as int) =~= ".git"@);
    assert(".git"@.is_suffix_of(s));
    assert(s.take(s.len() - 4) =~= page);
}

// ── Hosts ────────────────────────────────

/// A path at home is taken from the home directory; any other is left.
pub proof fn tildes_lead_home(path: &str, home: Option<&str>, r: String)
    requires
        call_ensures(expand_tilde, (path, home), r),
    ensures
        path@.len() < 2 || path@[0] != '~' || path@[1] != '/' || home is None ==> r@ == path@,
        path@.len() > 2 && path@[0] == '~' && path@[1] == '/' && path@[2] != '/' ==> (
        home matches Some(h) ==> {
            &&& h@.len() > 0 && h@.last() != '/' ==> r@ == h@ + path@.skip(1)
            &&& h@.len() == 0 || h@.last() == '/' ==> r@ == h@ + path@.skip(2)
        }),
{
    reveal_strlit("~/");
    let p = path@;
    assert("~/"@.is_prefix_of(p) <==> p.len() >= 2 && p[0] == '~' && p[1] == '/') by {
        if p.len() >= 2 && p[0] == '~' && p[1] == '/' {
            assert(p.subrange(0, 2) =~= "~/"@);
        }
        if "~/"@.is_prefix_of(p) {
            assert(p[0] == p.subrange(0, 2)[0]);
            assert(p[1] == p.subrange(0, 2)[1]);
        }
    }
    if p.len() > 2 && p[0] == '~' && p[1] == '/' && p[2] != '/' {
        assert(p.skip(2)[0] == p[2]);
        if let Some(h) = home {
            assert(h@.push('/') + p.skip(2) =~= h@ + p.skip(1));
        }
    }
}

/// A host has the settings that its rules give it: their host name where they
/// say one, their user, their port and their keys; only those keys are wanted
/// where they say so.
pub proof fn settings_are_those_of_the_rules(
    host: &str,
    settings: Option<HostSettings>,
    home: Option<&str>,
    r: ResolvedHost,
)
    requires
        call_ensures(resolve_with, (host, settings, home), r),
    ensures
        settings is None ==> {
            &&& r.hostname@ == host@ && r.user is None && r.port is None
            &&& r.identity_files@.len() == 0 && !r.identities_only
        },
        settings matches Some(s) ==> {
            &&& s.host_name matches Some(h) ==> r.hostname@ == h@
            &&& s.host_name is None ==> r.hostname@ == host@
            &&& s.user is Some <==> r.user is Some
            &&& s.user matches Some(u) ==> r.user.unwrap()@ == u@
            &&& r.port == s.port
            &&& s.identity_file is None ==> r.identity_files@.len() == 0
            &&& s.identity_file matches Some(f) ==> r.identity_files@.len() == f@.len()
            &&& r.identities_only <==> s.extra is Some && s.extra.unwrap()@.len() > 0 && ({
                let v = ascii_lowercase(s.extra.unwrap()@[0]@);
                v == "yes"@ || v == "true"@ || v == "on"@ || v == "1"@
            })
        },
{
    assert(r@.user is Some <==> r.user is Some);
    assert(texts(r.identity_files@).len() == r.identity_files@.len());
    if let Some(s) = settings {
        assert(s@.1 is Some <==> s.user is Some);
        if let Some(f) = s.identity_file {
            assert(texts(f@).len() == f@.len());
        }
        if let Some(e) = s.extra {
            assert(texts(e@).len() == e@.len());
            if e@.len() > 0 {
                assert(texts(e@)[0] == e@[0]@);
            }
        }
    }
}

/// The keys of a host are those of its rules, in order, each taken from the
/// home directory where it says so.
pub proof fn keys_are_those_of_the_rules(
    host: &str,
    s: HostSettings,
    home: Option<&str>,
    r: ResolvedHost,
    i: int,
    path: &str,
    expanded: String,
)
    requires
        call_ensures(resolve_with, (host, Some(s), home), r),
        s.identity_file matches Some(f) && 0 <= i < f@.len() && f@[i]@ == path@,
        call_ensures(expand_tilde, (path, home), expanded),
    ensures
        i < r.identity_files@.len() && r.identity_files@[i]@ == expanded@,
{
    let f = s.identity_file.unwrap();
    assert(texts(f@)[i] == f@[i]@);
    assert(texts(r.identity_files@).len() == r.identity_files@.len());
    assert(texts(r.identity_files@)[i] == r.identity_files@[i]@);
}

/// A host is looked up in the configuration under its own name, along with
/// whether only its keys are wanted; without a configuration it is itself.
pub proof fn hosts_are_looked_up_by_name(
    host: &str,
    config: Option<&SshConfig>,
    home: Option<&str>,
    r: ResolvedHost,
)
    requires
        call_ensures(resolve, (host, config, home), r),
    ensures
        config is None ==> r.hostname@ == host@ && r.user is None && r.port is None,
        config matches Some(c) ==> {
            let rules = crate::git::ssh_config::host_rules(*c)[(host@, "identitiesonly"@)];
            &&& rules.0 matches Some(h) ==> r.hostname@ == h
            &&& rules.0 is None ==> r.hostname@ == host@
            &&& crate::text::opt_view(r.user) == rules.1
            &&& r.port == rules.2
            &&& rules.4 is None ==> !r.identities_only
        },
{
    let v = r@;
    assert(v.user == crate::text::opt_view(r.user));
    assert(v.hostname == r.hostname@ && v.port == r.port && v.identities_only
        == r.identities_only);
}

// ── Keys ─────────────────────────────────

/// Keys are kept in `.ssh` in the home directory.
pub proof fn keys_are_kept_at_home(home: Option<&str>, r: String)
    requires
        call_ensures(ssh_dir, (home,), r),
        home matches Some(h) ==> h@.len() > 0 && h@.last() != '/',
    ensures
        home matches Some(h) ==> r@ == h@ + "/"@ + ".ssh"@,
        home is None ==> r@ == "/Users"@ + "/"@ + ".ssh"@,
{
    reveal_strlit("/");
    reveal_strlit(".ssh");
    reveal_strlit("/Users");
    let h = match home {
        Some(h) => h@,
        None => "/Users"@,
    };
    assert(h.push('/') + ".ssh"@ =~= h + "/"@ + ".ssh"@);
}

/// Keys are looked for under the standard names first, the modern kinds before
/// the old ones, and then beside the public keys that are there.
pub proof fn keys_have_standard_names(dir: &str, entries: Vec<String>, r: Vec<String>)
    requires
        dir@.len() > 0,
        dir@.last() != '/',
        call_ensures(candidate_keys, (dir, &entries), r),
    ensures
        r@.len() >= 6,
        r@[0]@ == dir@ + "/"@ + "id_ed25519"@,
        r@[1]@ == dir@ + "/"@ + "id_ed25519_sk"@,
        r@[2]@ == dir@ + "/"@ + "id_ecdsa"@,
        r@[3]@ == dir@ + "/"@ + "id_ecdsa_sk"@,
        r@[4]@ == dir@ + "/"@ + "id_rsa"@,
        r@[5]@ == dir@ + "/"@ + "id_dsa"@,
        texts(r@).skip(6) == paired_keys(texts(entries@)),
{
    let v = texts(r@);
    assert(v.len() == r@.len());
    standard_name(dir@, "id_ed25519"@);
    standard_name(dir@, "id_ed25519_sk"@);
    standard_name(dir@, "id_ecdsa"@);
    standard_name(dir@, "id_ecdsa_sk"@);
    standard_name(dir@, "id_rsa"@);
    standard_name(dir@, "id_dsa"@);
    let names = crate::git::credentials::standard_key_names().map_values(
        |n: Seq<char>| crate::paths::joined_path(dir@, n),
    );
    assert(names.len() == 6);
    assert(v =~= names + paired_keys(texts(entries@)));
    assert(v[0] == names[0] && v[1] == names[1] && v[2] == names[2]);
    assert(v[3] == names[3] && v[4] == names[4] && v[5] == names[5]);
    assert(v[0] == r@[0]@ && v[1] == r@[1]@ && v[2] == r@[2]@);
    assert(v[3] == r@[3]@ && v[4] == r@[4]@ && v[5] == r@[5]@);
    assert(v.skip(6) =~= paired_keys(texts(entries@)));
}

proof fn standard_name(dir: Seq<char>, name: Seq<char>)
    requires
        dir.len() > 0,
        dir.last() != '/',
        name == "id_ed25519"@ || name == "id_ed25519_sk"@ || name == "id_ecdsa"@ || name
            == "id_ecdsa_sk"@ || name == "id_rsa"@ || name == "id_dsa"@,
    ensures
        crate::paths::joined_path(dir, name) == dir + "/"@ + name,
{
    reveal_strlit("/");
    reveal_strlit("id_ed25519");
    reveal_strlit("id_ed25519_sk");
    reveal_strlit("id_ecdsa");
    reveal_strlit("id_ecdsa_sk");
    reveal_strlit("id_rsa");
    reveal_strlit("id_dsa");
    assert(dir.push('/') + name =~= dir + "/"@ + name);
}

/// A public key in the listing stands for the private key beside it, which has
/// its name without the extension; other files stand for nothing.
pub proof fn public_keys_have_private_ones(entries: Seq<Seq<char>>, more: Seq<char>)
    ensures
        paired_keys(seq![]).len() == 0,
        crate::paths::extension_of(more) == Some("pub"@) ==> paired_keys(entries.push(more))
            == paired_keys(entries).push(crate::paths::with_extension_of(more, seq![])),
        crate::paths::extension_of(more) != Some("pub"@) ==> paired_keys(entries.push(more))
            == paired_keys(entries),
{
    assert(entries.push(more).drop_last() =~= entries);
}

/// The keys that are there are candidates that exist, and none comes twice.
pub proof fn only_existing_keys_are_found(
    candidates: Vec<String>,
    exist: Vec<bool>,
    r: Vec<String>,
    i: int,
)
    requires
        exist@.len() == candidates@.len(),
        call_ensures(discover_ssh_keys, (candidates, &exist), r),
        0 <= i < r@.len(),
    ensures
        exists|k: int|
            0 <= k < exist@.len() && exist@[k] && (#[trigger] candidates@[k])@ == r@[i]@,
        forall|j: int|
            0 <= j < i ==> !crate::paths::same_path((#[trigger] r@[j])@, r@[i]@),
{
    let c = texts(candidates@);
    let e = existing(c, exist@);
    let v = texts(r@);
    new_paths_are_new(seq![], e);
    assert(v[i] == r@[i]@);
    let j = choose|j: int| 0 <= j < e.len() && #[trigger] e[j] == v[i];
    let k = what_exists(c, exist@, j);
    assert(c[k] == candidates@[k]@);
    assert forall|j: int| 0 <= j < i implies !crate::paths::same_path(
        (#[trigger] r@[j])@,
        r@[i]@,
    ) by {
        assert(v[j] == r@[j]@);
    }
}

/// Every candidate that exists is among the keys that are there.
pub proof fn all_existing_keys_are_found(
    candidates: Vec<String>,
    exist: Vec<bool>,
    r: Vec<String>,
    k: int,
)
    requires
        exist@.len() == candidates@.len(),
        call_ensures(discover_ssh_keys, (candidates, &exist), r),
        0 <= k < exist@.len(),
        exist@[k],
    ensures
        exists|i: int|
            0 <= i < r@.len() && crate::paths::same_path((#[trigger] r@[i])@, candidates@[k]@),
{
    let c = texts(candidates@);
    let e = existing(c, exist@);
    let v = texts(r@);
    new_paths_are_new(seq![], e);
    assert(c[k] == candidates@[k]@);
    let j = where_it_exists(c, exist@, k);
    assert(holds_path(v, e[j]));
    let i = choose|i: int| 0 <= i < v.len() && crate::paths::same_path(#[trigger] v[i], e[j]);
    assert(v[i] == r@[i]@);
}

proof fn what_exists(c: Seq<Seq<char>>, exist: Seq<bool>, j: int) -> (k: int)
    requires
        0 <= j < existing(c, exist).len(),
    ensures
        0 <= k < c.len(),
        exist[k],
        c[k] == existing(c, exist)[j],
    decreases c.len(),
{
    if j < existing(c.drop_last(), exist).len() {
        what_exists(c.drop_last(), exist, j)
    } else {
        c.len() - 1
    }
}

proof fn where_it_exists(c: Seq<Seq<char>>, exist: Seq<bool>, k: int) -> (j: int)
    requires
        0 <= k < c.len(),
        exist[k],
    ensures
        0 <= j < existing(c, exist).len(),
        existing(c, exist)[j] == c[k],
    decreases c.len(),
{
    if k < c.len() - 1 {
        where_it_exists(c.drop_last(), exist, k)
    } else {
        existing(c, exist).len() - 1
    }
}

proof fn new_paths_are_new(base: Seq<Seq<char>>, more: Seq<Seq<char>>)
    requires
        base.len() == 0,
    ensures
        ({
            let v = with_new_paths(base, more);
            &&& forall|i: int|
                0 <= i < v.len() ==> exists|j: int|
                    0 <= j < more.len() && #[trigger] more[j] == #[trigger] v[i]
            &&& forall|j: int| 0 <= j < more.len() ==> holds_path(v, #[trigger] more[j])
            &&& forall|i: int, j: int|
                0 <= i < j < v.len() ==> !crate::paths::same_path(#[trigger] v[i], #[trigger] v[j])
        }),
    decreases more.len(),
{
    let v = with_new_paths(base, more);
    if more.len() > 0 {
        let w = more.drop_last();
        let before = with_new_paths(base, w);
        new_paths_are_new(base, w);
        assert forall|i: int| 0 <= i < v.len() implies exists|j: int|
            0 <= j < more.len() && #[trigger] more[j] == #[trigger] v[i] by {
            if i < before.len() {
                assert(v[i] == before[i]);
                let j = choose|j: int| 0 <= j < w.len() && #[trigger] w[j] == before[i];
                assert(more[j] == w[j]);
            } else {
                assert(more[more.len() - 1] == v[i]);
            }
        }
        assert forall|j: int| 0 <= j < more.len() implies holds_path(v, #[trigger] more[j]) by {
            if j < w.len() {
                assert(w[j] == more[j]);
                assert(holds_path(before, w[j]));
                let i = choose|i: int|
                    0 <= i < before.len() && crate::paths::same_path(#[trigger] before[i], w[j]);
                assert(v[i] == before[i]);
            } else if !holds_path(before, more.last()) {
                assert(v[v.len() - 1] == more[j]);
                assert(crate::paths::same_path(v[v.len() - 1], more[j]));
            }
        }
        assert forall|i: int, j: int| 0 <= i < j < v.len() implies !crate::paths::same_path(
            #[trigger] v[i],
            #[trigger] v[j],
        ) by {
            if j < before.len() {
                assert(v[i] == before[i] && v[j] == before[j]);
            } else {
                assert(v[i] == before[i]);
                assert(v[j] == more.last());
            }
        }
    }
}

// ── Offers ───────────────────────────────

/// A connection starts with nothing tried. The keys of the configured host
/// come first, and where only those are wanted no others are added; the user
/// is the configured one.
pub proof fn a_connection_starts_fresh(
    host: Option<ResolvedHost>,
    discovered: Vec<String>,
    r: CredState,
)
    requires
        call_ensures(CredState::new, (host, discovered), r),
    ensures
        r.attempts == 0 && r.ssh_key_idx == 0,
        !r.tried_agent && !r.tried_helper && !r.tried_username_only && !r.tried_default,
        host is None ==> {
            &&& texts(r.ssh_keys@) == texts(discovered@)
            &&& !r.identities_only
            &&& r.configured_user is None
        },
        host matches Some(h) ==> {
            &&& r.identities_only == h.identities_only
            &&& r.configured_user is Some <==> h.user is Some
            &&& h.user matches Some(u) ==> r.configured_user.unwrap()@ == u@
            &&& h.identities_only ==> texts(r.ssh_keys@) == texts(h.identity_files@)
            &&& !h.identities_only ==> {
                &&& texts(h.identity_files@).is_prefix_of(texts(r.ssh_keys@))
                &&& forall|i: int|
                    0 <= i < discovered@.len() ==> holds_path(
                        texts(r.ssh_keys@),
                        (#[trigger] discovered@[i])@,
                    )
            }
        },
{
    assert(r@.user is Some <==> r.configured_user is Some);
    if let Some(h) = host {
        assert(h@.user is Some <==> h.user is Some);
        let d = texts(discovered@);
        let b = texts(h.identity_files@);
        paths_are_added(b, d);
        if !h.identities_only {
            assert forall|i: int| 0 <= i < discovered@.len() implies holds_path(
                texts(r.ssh_keys@),
                (#[trigger] discovered@[i])@,
            ) by {
                assert(d[i] == discovered@[i]@);
            }
        }
    }
}

proof fn paths_are_added(base: Seq<Seq<char>>, more: Seq<Seq<char>>)
    ensures
        base.is_prefix_of(with_new_paths(base, more)),
        forall|j: int|
            0 <= j < more.len() ==> holds_path(with_new_paths(base, more), #[trigger] more[j]),
    decreases more.len(),
{
    let v = with_new_paths(base, more);
    if more.len() > 0 {
        let w = more.drop_last();
        let before = with_new_paths(base, w);
        paths_are_added(base, w);
        assert(v.subrange(0, base.len() as int) =~= before.subrange(0, base.len() as int));
        assert forall|j: int| 0 <= j < more.len() implies holds_path(v, #[trigger] more[j]) by {
            if j < w.len() {
                assert(w[j] == more[j]);
                let i = choose|i: int|
                    0 <= i < before.len() && crate::paths::same_path(#[trigger] before[i], w[j]);
                assert(v[i] == before[i]);
            } else if !holds_path(before, more.last()) {
                assert(v[v.len() - 1] == more[j]);
                assert(crate::paths::same_path(v[v.len() - 1], more[j]));
            }
        }
    }
}

/// The user who logs in: the one of the address, or the configured one, or
/// `git`.
pub open spec fn login_of(s: CredState, from_url: Option<&str>) -> Seq<char> {
    match (from_url, s.configured_user) {
        (Some(u), _) => u@,
        (None, Some(u)) => u@,
        (None, None) => "git"@,
    }
}

/// To a server that takes keys the agent is offered first, unless only the
/// configured keys are wanted, and then each key in turn with the public one
/// beside it; to others a password from the helper, a name, and the default,
/// each once. After sixteen attempts nothing is offered.
pub proof fn offers_are_made_in_order(
    s: &mut CredState,
    from_url: Option<&str>,
    allowed: AllowedTypes,
    goes_on: bool,
    r: Offer,
)
    requires
        old(s)@.valid(),
        call_ensures(try_next_credential, (s, from_url, allowed, goes_on), r),
    ensures
        ({
            let b = *old(s);
            let agent = !b.tried_agent && !b.identities_only;
            let key = b.ssh_key_idx < b.ssh_keys@.len();
            let keys_done = !(allowed.ssh_key && (agent || key)) && !(allowed.ssh_memory && agent);
            let helper_done = !(allowed.user_pass_plaintext && !b.tried_helper);
            let name_done = !(allowed.username && !b.tried_username_only && from_url is Some);
            let over = !goes_on && b.attempts >= 16;
            let user = login_of(b, from_url);
            &&& over ==> (r matches Offer::Nothing(t) && t@
                == "auth: too many credential attempts — giving up"@)
            &&& !over && allowed.ssh_key && agent ==> (r matches Offer::Agent(u) && u@ == user)
            &&& !over && allowed.ssh_key && !agent && key ==> {
                &&& r matches Offer::Key { user: u, private, public }
                &&& u@ == user
                &&& private@ == b.ssh_keys@[b.ssh_key_idx as int]@
                &&& public@ == crate::paths::with_extension_of(private@, "pub"@)
            }
            &&& !over && allowed.ssh_memory && agent ==> (r matches Offer::Agent(u) && u@ == user)
            &&& !over && keys_done && !helper_done ==> r is Helper
            &&& !over && keys_done && helper_done && !name_done ==> (r matches Offer::Username(u)
                && u@ == from_url.unwrap()@)
            &&& !over && keys_done && helper_done && name_done && allowed.default
                && !b.tried_default ==> r is Default
            &&& !over && keys_done && helper_done && name_done && !(allowed.default
                && !b.tried_default) ==> r is Nothing
        }),
{
    let b = *old(s);
    assert(texts(b.ssh_keys@).len() == b.ssh_keys@.len());
    if b.ssh_key_idx < b.ssh_keys@.len() {
        assert(texts(b.ssh_keys@)[b.ssh_key_idx as int] == b.ssh_keys@[b.ssh_key_idx as int]@);
    }
}

/// What was offered is remembered: the agent, the key, the helper and the
/// default are not offered again, and each new request is another attempt.
pub proof fn offers_are_remembered(
    s: &mut CredState,
    from_url: Option<&str>,
    allowed: AllowedTypes,
    goes_on: bool,
    r: Offer,
)
    requires
        old(s)@.valid(),
        call_ensures(try_next_credential, (s, from_url, allowed, goes_on), r),
    ensures
        final(s).tried_agent == (old(s).tried_agent || r is Agent),
        final(s).tried_helper == (old(s).tried_helper || r is Helper),
        final(s).tried_default == (old(s).tried_default || r is Default),
        final(s).ssh_key_idx == old(s).ssh_key_idx + if r is Key {
            1int
        } else {
            0
        },
        goes_on ==> final(s).attempts == old(s).attempts,
        !goes_on && old(s).attempts < usize::MAX ==> final(s).attempts == old(s).attempts + 1,
        texts(final(s).ssh_keys@) == texts(old(s).ssh_keys@),
{
    let (a, b) = (old(s)@, final(s)@);
    assert(b.tried_agent == final(s).tried_agent && a.tried_agent == old(s).tried_agent);
    assert(b.next_key == final(s).ssh_key_idx && a.next_key == old(s).ssh_key_idx);
    assert(b.attempts == final(s).attempts && a.attempts == old(s).attempts);
}

/// The methods that were rejected are told when nothing is left, in the order
/// in which they are offered.
pub proof fn rejected_methods_are_told(
    s: &mut CredState,
    from_url: Option<&str>,
    allowed: AllowedTypes,
    r: Offer,
)
    requires
        old(s)@.valid(),
        old(s).attempts < 16,
        call_ensures(try_next_credential, (s, from_url, allowed, false), r),
        r is Nothing,
    ensures
        ({
            let b = *old(s);
            let t = r->Nothing_0@;
            let keys = b.ssh_key_idx > 0;
            &&& !b.tried_agent && !keys && !b.tried_helper && !b.tried_default ==> t
                == "auth: no usable authentication method advertised by server"@
            &&& b.tried_agent && !keys && !b.tried_helper && !b.tried_default ==> t
                == "auth: all methods rejected ("@ + "ssh-agent"@ + ")"@
            &&& b.tried_agent && keys && !b.tried_helper && !b.tried_default ==> t
                == "auth: all methods rejected ("@ + "ssh-agent"@ + ", "@ + "~/.ssh keys"@ + ")"@
            &&& !b.tried_agent && !keys && b.tried_helper && !b.tried_default ==> t
                == "auth: all methods rejected ("@ + "credential helper"@ + ")"@
            &&& !b.tried_agent && !keys && b.tried_helper && b.tried_default ==> t
                == "auth: all methods rejected ("@ + "credential helper"@ + ", "@ + "default"@
                + ")"@
        }),
{
    let b = old(s)@;
    let sep = ", "@;
    let v = b.tried();
    let named = final(s)@;
    assert(named.tried() =~= v);
    let one = |x: Seq<char>| "auth: all methods rejected ("@ + x + ")"@;
    if b.tried_agent && b.next_key == 0 && !b.tried_helper && !b.tried_default {
        assert(v =~= seq!["ssh-agent"@]);
    }
    if b.tried_agent && b.next_key > 0 && !b.tried_helper && !b.tried_default {
        assert(v =~= seq!["ssh-agent"@, "~/.ssh keys"@]);
        assert(v.drop_last() =~= seq!["ssh-agent"@]);
        assert(crate::text::joined(v, sep) == crate::text::joined(v.drop_last(), sep) + sep
            + "~/.ssh keys"@);
        assert("auth: all methods rejected ("@ + ("ssh-agent"@ + sep + "~/.ssh keys"@) + ")"@
            =~= "auth: all methods rejected ("@ + "ssh-agent"@ + sep + "~/.ssh keys"@ + ")"@);
    }
    if !b.tried_agent && b.next_key == 0 && b.tried_helper && !b.tried_default {
        assert(v =~= seq!["credential helper"@]);
    }
    if !b.tried_agent && b.next_key == 0 && b.tried_helper && b.tried_default {
        assert(v =~= seq!["credential helper"@, "default"@]);
        assert(v.drop_last() =~= seq!["credential helper"@]);
        assert(crate::text::joined(v, sep) == crate::text::joined(v.drop_last(), sep) + sep
            + "default"@);
        assert("auth: all methods rejected ("@ + ("credential helper"@ + sep + "default"@) + ")"@
            =~= "auth: all methods rejected ("@ + "credential helper"@ + sep + "default"@ + ")"@);
    }
}

/// What is offered is told: the agent and the name with the user, a key with
/// the file of the private one.
pub proof fn offers_are_told(o: Offer, r: Option<String>)
    requires
        call_ensures(offer_stage, (&o,), r),
    ensures
        match o {
            Offer::Agent(u) => r matches Some(t) && t@ == "auth: ssh-agent ("@ + u@ + ")"@,
            Offer::Key { user, private, public } => r matches Some(t) && t@ == "auth: "@ + private@,
            Offer::Helper => r matches Some(t) && t@ == "auth: credential helper"@,
            Offer::Username(u) => r matches Some(t) && t@ == "auth: username ("@ + u@ + ")"@,
            Offer::Default => r matches Some(t) && t@ == "auth: default"@,
            Offer::Nothing(_) => r is None,
        },
{
}

} // verus!
