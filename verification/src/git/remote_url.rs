//! Addresses of remotes: taking them apart, rewriting them by the ssh
//! configuration, and showing them.
use ssh2_config::SshConfig;
use vstd::prelude::*;
use vstd::string::*;

use crate::git::ssh_config;
use crate::git::ssh_config::{
    opt_str_view, resolved_with, rules_for, ResolvedHost, ResolvedHostView,
};
use crate::text;
use crate::text::{
    after_prefix, before_suffix, cut_first, cut_last, decimal_of, first_occurrence, has_text,
    opt_view, port_number, replaced, replaced_first,
};

verus! {

/// The parts of a remote's address that matter to the ssh configuration.
pub struct GitUrl {
    /// `ssh`, `https` and so on; none for the form `user@host:path`.
    pub scheme: Option<String>,
    pub user: Option<String>,
    pub host: String,
    pub port: Option<u16>,
    /// What follows the host and port, with the separator at its front.
    pub tail: String,
}

/// What an address holds.
pub struct GitUrlView {
    pub scheme: Option<Seq<char>>,
    pub user: Option<Seq<char>>,
    pub host: Seq<char>,
    pub port: Option<u16>,
    pub tail: Seq<char>,
}

impl View for GitUrl {
    type V = GitUrlView;

    open spec fn view(&self) -> GitUrlView {
        GitUrlView {
            scheme: opt_view(self.scheme),
            user: opt_view(self.user),
            host: self.host@,
            port: self.port,
            tail: self.tail@,
        }
    }
}

pub open spec fn opt_url_view(u: Option<GitUrl>) -> Option<GitUrlView> {
    match u {
        Some(v) => Some(v@),
        None => None,
    }
}

/// An authority as its user, if it names one, and what follows the user.
pub open spec fn user_and_host(authority: Seq<char>) -> (Option<Seq<char>>, Seq<char>) {
    match cut_last(authority, '@') {
        Some(c) => (Some(c.0), c.1),
        None => (None, authority),
    }
}

/// A host as its name and its port, if it gives one that is a port.
pub open spec fn host_and_port(hostport: Seq<char>) -> (Seq<char>, Option<u16>) {
    match cut_last(hostport, ':') {
        Some(c) => (c.0, port_number(c.1)),
        None => (hostport, None),
    }
}

/// What stands between `ssh://` and the path, and the path.
pub open spec fn authority_and_path(rest: Seq<char>) -> (Seq<char>, Seq<char>) {
    match rest.index_of_first('/') {
        Some(i) => (rest.take(i), rest.skip(i)),
        None => (rest, seq![]),
    }
}

/// A path on a drive, such as `C:\path`.
pub open spec fn is_drive_path(s: Seq<char>) -> bool {
    &&& s.len() >= 3
    &&& 'a' <= s[0] <= 'z' || 'A' <= s[0] <= 'Z'
    &&& s[1] == ':'
    &&& s[2] == '\\'
}

/// A text that begins as an IPv6 address in brackets does.
pub open spec fn in_brackets(s: Seq<char>) -> bool {
    s.len() > 0 && s[0] == '['
}

/// The parts of an address: `ssh://[user@]host[:port]/path`, another scheme,
/// which is kept whole, or `[user@]host:path`. Paths, those on a drive among
/// them, are no addresses, and neither is what begins with a bracket.
pub open spec fn url_parts(url: Seq<char>) -> Option<GitUrlView> {
    match after_prefix(url, "ssh://"@) {
        Some(rest) => {
            let (authority, path) = authority_and_path(rest);
            let (user, hostport) = user_and_host(authority);
            let (host, port) = host_and_port(hostport);
            Some(GitUrlView { scheme: Some("ssh"@), user, host, port, tail: path })
        },
        None => match first_occurrence(url, "://"@) {
            Some(i) => Some(
                GitUrlView {
                    scheme: Some(url.take(i)),
                    user: None,
                    host: seq![],
                    port: None,
                    tail: url.skip(i),
                },
            ),
            None => if is_drive_path(url) || in_brackets(url) {
                None
            } else {
                match cut_first(url, ':') {
                    Some(c) => if c.0.contains('/') || c.0.len() == 0 {
                        None
                    } else {
                        let (user, host) = user_and_host(c.0);
                        Some(GitUrlView { scheme: None, user, host, port: None, tail: ":"@ + c.1 })
                    },
                    None => None,
                }
            },
        },
    }
}

pub open spec fn or_else<A>(a: Option<A>, b: Option<A>) -> Option<A> {
    match a {
        Some(_) => a,
        None => b,
    }
}

pub open spec fn user_prefix(user: Option<Seq<char>>) -> Seq<char> {
    match user {
        Some(u) => u + "@"@,
        None => seq![],
    }
}

pub open spec fn port_suffix(port: Option<u16>) -> Seq<char> {
    match port {
        Some(p) => ":"@ + decimal_of(p as nat),
        None => seq![],
    }
}

impl GitUrlView {
    /// An address that ssh handles.
    pub open spec fn is_ssh(self) -> bool {
        (self.scheme is None || self.scheme == Some("ssh"@)) && self.host.len() > 0
    }

    /// The address with another host name, and another user and port where
    /// they are given. The form without a scheme has no place for a port, so
    /// that with one it becomes an `ssh://` address. Addresses of other
    /// schemes are not rewritten.
    pub open spec fn rebuilt(
        self,
        hostname: Seq<char>,
        user: Option<Seq<char>>,
        port: Option<u16>,
    ) -> Seq<char> {
        let at = user_prefix(or_else(user, self.user));
        match self.scheme {
            Some(s) => if s == "ssh"@ {
                "ssh://"@ + at + hostname + port_suffix(or_else(port, self.port)) + self.tail
            } else {
                s + self.tail
            },
            None => match port {
                Some(p) => "ssh://"@ + at + hostname + port_suffix(port) + replaced_first(
                    self.tail,
                    ':',
                    '/',
                ),
                None => at + hostname + self.tail,
            },
        }
    }
}

/// Cuts an address, without its scheme, before its path.
fn split_path(rest: &str) -> (r: (String, String))
    ensures
        (r.0@, r.1@) == authority_and_path(rest@),
{
    match text::find_char(rest, '/') {
        Some(i) => {
            let n: usize = text::length(rest);
            let a = text::part(rest, 0, i);
            let p = text::part(rest, i, n);
            assert(a@ =~= rest@.take(i as int));
            assert(p@ =~= rest@.skip(i as int));
            (a, p)
        },
        None => {
            let e = String::new();
            assert(e@ =~= seq![]);
            (text::copy(rest), e)
        },
    }
}

/// Whether a text is a path on a drive.
fn drive_path(s: &str) -> (r: bool)
    ensures
        r == is_drive_path(s@),
{
    let cs = text::chars_of(s);
    cs.len() >= 3 && (('a' <= cs[0] && cs[0] <= 'z') || ('A' <= cs[0] && cs[0] <= 'Z')) && cs[1]
        == ':' && cs[2] == '\\'
}

/// Whether a text begins as an IPv6 address in brackets does.
fn bracketed(s: &str) -> (r: bool)
    ensures
        r == in_brackets(s@),
{
    let cs = text::chars_of(s);
    cs.len() > 0 && cs[0] == '['
}

/// Cuts an authority at its last `@`.
fn split_user(authority: &str) -> (r: (Option<String>, String))
    ensures
        (opt_view(r.0), r.1@) == user_and_host(authority@),
{
    match text::rsplit_once(authority, '@') {
        Some((u, h)) => (Some(u), h),
        None => (None, text::copy(authority)),
    }
}

impl GitUrl {
    /// The parts of an address.
    pub fn parse(url: &str) -> (r: Option<Self>)
        ensures
            opt_url_view(r) == url_parts(url@),
    {
        if let Some(rest) = text::strip_prefix(url, "ssh://") {
            let (authority, path) = split_path(rest.as_str());
            let (user, hostport) = split_user(authority.as_str());
            let (host, port) = match text::rsplit_once(hostport.as_str(), ':') {
                Some((h, p)) => (h, text::parse_u16(p.as_str())),
                None => (hostport, None),
            };
            return Some(
                GitUrl { scheme: Some(text::copy("ssh")), user, host, port, tail: path },
            );
        }
        if let Some(i) = text::find(url, "://") {
            let n: usize = text::length(url);
            let scheme = text::part(url, 0, i);
            let tail = text::part(url, i, n);
            let host = String::new();
            assert(scheme@ =~= url@.take(i as int));
            assert(tail@ =~= url@.skip(i as int));
            assert(host@ =~= seq![]);
            return Some(GitUrl { scheme: Some(scheme), user: None, host, port: None, tail });
        }
        if drive_path(url) || bracketed(url) {
            return None;
        }
        if let Some((authority, path)) = text::split_once(url, ':') {
            if text::contains_char(authority.as_str(), '/') || text::length(authority.as_str()) == 0
            {
                return None;
            }
            let (user, host) = split_user(authority.as_str());
            let tail = text::copy(":").concat(path.as_str());
            return Some(GitUrl { scheme: None, user, host, port: None, tail });
        }
        None
    }

    /// The address with another host name, user and port.
    pub fn rebuild(&self, hostname: &str, user: Option<&str>, port: Option<u16>) -> (r: String)
        ensures
            r@ == self@.rebuilt(hostname@, opt_str_view(user), port),
    {
        let at = match user {
            Some(u) => text::copy(u).concat("@"),
            None => match &self.user {
                Some(u) => text::copy(u.as_str()).concat("@"),
                None => String::new(),
            },
        };
        assert(at@ =~= user_prefix(or_else(opt_str_view(user), self@.user)));
        match &self.scheme {
            Some(s) => if text::same(s.as_str(), "ssh") {
                let own = match port {
                    Some(p) => Some(p),
                    None => self.port,
                };
                let suffix = port_text(own);
                text::copy("ssh://").concat(at.as_str()).concat(hostname).concat(
                    suffix.as_str(),
                ).concat(self.tail.as_str())
            } else {
                text::copy(s.as_str()).concat(self.tail.as_str())
            },
            None => match port {
                Some(p) => {
                    let suffix = port_text(port);
                    let path = text::replace_first_char(self.tail.as_str(), ':', '/');
                    text::copy("ssh://").concat(at.as_str()).concat(hostname).concat(
                        suffix.as_str(),
                    ).concat(path.as_str())
                },
                None => at.concat(hostname).concat(self.tail.as_str()),
            },
        }
    }

    /// Whether ssh handles the address.
    pub fn is_ssh(&self) -> (r: bool)
        ensures
            r == self@.is_ssh(),
    {
        let scheme_fits: bool = match &self.scheme {
            Some(s) => text::same(s.as_str(), "ssh"),
            None => true,
        };
        scheme_fits && text::length(self.host.as_str()) > 0
    }
}

/// A port as it stands behind a host.
fn port_text(port: Option<u16>) -> (r: String)
    ensures
        r@ == port_suffix(port),
{
    match port {
        Some(p) => {
            let d = text::decimal(p as u64);
            text::copy(":").concat(d.as_str())
        },
        None => {
            let e = String::new();
            assert(e@ =~= seq![]);
            e
        },
    }
}

/// The address to connect to, for an address that ssh handles: rewritten
/// where the configuration gives another host name, or a user or port that
/// the address lacks, and unchanged otherwise.
pub open spec fn effective_url(url: Seq<char>, parts: GitUrlView, host: ResolvedHostView) -> Seq<
    char,
> {
    if host.hostname != parts.host || (parts.user is None && host.user is Some) || (
    parts.port is None && host.port is Some) {
        parts.rebuilt(host.hostname, host.user, host.port)
    } else {
        url
    }
}

pub open spec fn opt_host_view(h: Option<ResolvedHost>) -> Option<ResolvedHostView> {
    match h {
        Some(r) => Some(r@),
        None => None,
    }
}

/// The address to connect to and the host as it is configured; addresses
/// that ssh does not handle are unchanged and have no host.
pub open spec fn ssh_config_applied(
    url: Seq<char>,
    config: Option<&SshConfig>,
    home: Option<Seq<char>>,
) -> (Seq<char>, Option<ResolvedHostView>) {
    match url_parts(url) {
        Some(parts) => if parts.is_ssh() {
            let host = resolved_with(parts.host, rules_for(config, parts.host), home);
            (effective_url(url, parts, host), Some(host))
        } else {
            (url, None)
        },
        None => (url, None),
    }
}

/// The address to connect to, given the host as it is configured.
pub fn rewrite_url(url: &str, parsed: &GitUrl, host: &ResolvedHost) -> (r: String)
    ensures
        r@ == effective_url(url@, parsed@, host@),
{
    let host_changed: bool = !text::same(host.hostname.as_str(), parsed.host.as_str());
    let user_changed: bool = parsed.user.is_none() && host.user.is_some();
    let port_changed: bool = parsed.port.is_none() && host.port.is_some();
    if host_changed || user_changed || port_changed {
        let user = match &host.user {
            Some(u) => Some(u.as_str()),
            None => None,
        };
        parsed.rebuild(host.hostname.as_str(), user, host.port)
    } else {
        text::copy(url)
    }
}

/// The address to connect to and the host as it is configured.
pub fn apply_ssh_config(url: &str, config: Option<&SshConfig>, home: Option<&str>) -> (r: (
    String,
    Option<ResolvedHost>,
))
    ensures
        (r.0@, opt_host_view(r.1)) == ssh_config_applied(url@, config, opt_str_view(home)),
{
    let parsed = match GitUrl::parse(url) {
        Some(p) => p,
        None => {
            return (text::copy(url), None);
        },
    };
    if !parsed.is_ssh() {
        return (text::copy(url), None);
    }
    let host = ssh_config::resolve(parsed.host.as_str(), config, home);
    let effective = rewrite_url(url, &parsed, &host);
    (effective, Some(host))
}

/// What may name a user and a host at the front of an address without a
/// scheme: all that stands before the first colon or slash.
pub open spec fn short_authority(url: Seq<char>) -> Seq<char> {
    authority_and_path(
        match cut_first(url, ':') {
            Some(c) => c.0,
            None => url,
        },
    ).0
}

/// An address without the user before its host, for display.
pub open spec fn redacted(url: Seq<char>) -> Seq<char> {
    match first_occurrence(url, "://"@) {
        Some(i) => {
            let (authority, path) = authority_and_path(url.skip(i + 3));
            url.take(i + 3) + user_and_host(authority).1 + path
        },
        None => {
            let authority = short_authority(url);
            user_and_host(authority).1 + url.skip(authority.len() as int)
        },
    }
}

/// An address without the user before its host.
pub fn redact_userinfo(url: &str) -> (r: String)
    ensures
        r@ == redacted(url@),
{
    let n: usize = text::length(url);
    if let Some(i) = text::find(url, "://") {
        proof {
            reveal_strlit("://");
        }
        let scheme = text::part(url, 0, i + 3);
        let rest = text::part(url, i + 3, n);
        assert(scheme@ =~= url@.take(i + 3));
        assert(rest@ =~= url@.skip(i + 3));
        let (authority, path) = split_path(rest.as_str());
        let (_, host) = split_user(authority.as_str());
        return scheme.concat(host.as_str()).concat(path.as_str());
    }
    let before = match text::split_once(url, ':') {
        Some((a, _)) => a,
        None => text::copy(url),
    };
    let (authority, _) = split_path(before.as_str());
    let (_, host) = split_user(authority.as_str());
    let k: usize = text::length(authority.as_str());
    proof {
        url@.index_of_first_ensures(':');
        before@.index_of_first_ensures('/');
    }
    let rest = text::part(url, k, n);
    assert(rest@ =~= url@.skip(k as int));
    host.concat(rest.as_str())
}

/// An address as that of a web page: `git@host:path` becomes `https://host/path`,
/// and `.git` at the end goes away.
pub open spec fn web_address(url: Seq<char>) -> Seq<char> {
    match after_prefix(url, "git@"@) {
        Some(rest) => {
            let slashed = replaced(rest, ':', '/');
            "https://"@ + match before_suffix(slashed, ".git"@) {
                Some(t) => t,
                None => slashed,
            }
        },
        None => match before_suffix(url, ".git"@) {
            Some(t) => t,
            None => url,
        },
    }
}

/// An address as that of a web page.
pub fn normalize_remote_url(url: &str) -> (r: String)
    ensures
        r@ == web_address(url@),
{
    if let Some(rest) = text::strip_prefix(url, "git@") {
        let slashed = text::replace_char(rest.as_str(), ':', '/');
        let trimmed = match text::strip_suffix(slashed.as_str(), ".git") {
            Some(t) => t,
            None => slashed,
        };
        return text::copy("https://").concat(trimmed.as_str());
    }
    match text::strip_suffix(url, ".git") {
        Some(t) => t,
        None => text::copy(url),
    }
}

// ── Laws ─────────────────────────────────

/// A text is what stands before a character, the character, and the rest.
proof fn cut_first_joins(s: Seq<char>, c: char)
    requires
        cut_first(s, c) is Some,
    ensures
        s == cut_first(s, c).unwrap().0 + seq![c] + cut_first(s, c).unwrap().1,
{
    s.index_of_first_ensures(c);
    let i = s.index_of_first(c).unwrap();
    assert(s =~= s.take(i) + seq![c] + s.skip(i + 1));
}

proof fn cut_last_joins(s: Seq<char>, c: char)
    requires
        cut_last(s, c) is Some,
    ensures
        s == cut_last(s, c).unwrap().0 + seq![c] + cut_last(s, c).unwrap().1,
{
    s.index_of_last_ensures(c);
    let i = s.index_of_last(c).unwrap();
    assert(s =~= s.take(i) + seq![c] + s.skip(i + 1));
}

proof fn user_and_host_join(authority: Seq<char>)
    ensures
        user_prefix(user_and_host(authority).0) + user_and_host(authority).1 == authority,
{
    reveal_strlit("@");
    assert("@"@ =~= seq!['@']);
    if cut_last(authority, '@') is Some {
        cut_last_joins(authority, '@');
        let c = cut_last(authority, '@').unwrap();
        assert(c.0 + "@"@ + c.1 =~= authority);
    } else {
        assert(user_prefix(None) + authority =~= authority);
    }
}

/// An address of the form `user@host:path`, rebuilt with its own host and
/// nothing configured, is the address itself.
pub proof fn rebuilding_restores_a_short_address(url: Seq<char>)
    requires
        url_parts(url) is Some,
        url_parts(url).unwrap().scheme is None,
    ensures
        url_parts(url).unwrap().rebuilt(url_parts(url).unwrap().host, None, None) == url,
{
    let p = url_parts(url).unwrap();
    cut_first_joins(url, ':');
    let c = cut_first(url, ':').unwrap();
    user_and_host_join(c.0);
    reveal_strlit(":");
    assert(":"@ =~= seq![':']);
    assert(user_prefix(p.user) + p.host + p.tail =~= (user_prefix(p.user) + p.host) + p.tail);
    assert(c.0 + (":"@ + c.1) =~= c.0 + seq![':'] + c.1);
}

/// A text without a scheme is an address `[user@]host:path` wherever a user or
/// a host stands before its first colon, and no slash; a path on a drive and
/// what begins with a bracket are left out. The parts make up the text.
pub proof fn short_addresses_name_a_host(url: Seq<char>)
    requires
        !has_text(url, "://"@),
        !in_brackets(url),
        !is_drive_path(url),
    ensures
        match cut_first(url, ':') {
            Some(c) => url_parts(url) is None <==> c.0.len() == 0 || c.0.contains('/'),
            None => url_parts(url) is None,
        },
        match url_parts(url) {
            Some(p) => {
                &&& p.scheme is None
                &&& p.port is None
                &&& p.tail.len() > 0 && p.tail[0] == ':'
                &&& url == user_prefix(p.user) + p.host + p.tail
            },
            None => true,
        },
{
    reveal_strlit(":");
    if "ssh://"@.is_prefix_of(url) {
        reveal_strlit("ssh://");
        reveal_strlit("://");
        assert(url.subrange(0, 6)[3] == url[3]);
        assert(url.subrange(0, 6)[4] == url[4]);
        assert(url.subrange(0, 6)[5] == url[5]);
        assert(url.subrange(3, 6) =~= "://"@);
        assert(text::occurs_at(url, "://"@, 3));
    }
    if url_parts(url) is Some {
        rebuilding_restores_a_short_address(url);
    }
}

/// A text with `://` that does not begin with `ssh://` is an address whose
/// scheme is all that stands before the first `://`; it names nothing else,
/// and ssh does not handle it.
pub proof fn other_schemes_are_kept_whole(url: Seq<char>)
    requires
        has_text(url, "://"@),
        !"ssh://"@.is_prefix_of(url),
    ensures
        match url_parts(url) {
            Some(p) => {
                &&& p.scheme is Some
                &&& p.scheme.unwrap() + p.tail == url
                &&& "://"@.is_prefix_of(p.tail)
                &&& !has_text(p.scheme.unwrap(), "://"@)
                &&& p.user is None
                &&& p.host.len() == 0
                &&& p.port is None
                &&& !p.is_ssh()
            },
            None => false,
        },
{
    let i = first_occurrence(url, "://"@).unwrap();
    text::first_is_there(url, "://"@);
    reveal_strlit("://");
    let scheme = url.take(i);
    assert(scheme + url.skip(i) =~= url);
    assert(url.skip(i).subrange(0, 3) =~= url.subrange(i, i + 3));
    if has_text(scheme, "://"@) {
        let j = choose|j: int| text::occurs_at(scheme, "://"@, j);
        assert(scheme.subrange(j, j + 3) =~= url.subrange(j, j + 3));
        assert(text::occurs_at(url, "://"@, j));
    }
}

/// What stands behind a host is no port, or one that is written as numbers
/// are written.
pub open spec fn plain_port(hostport: Seq<char>) -> bool {
    match cut_last(hostport, ':') {
        Some(c) => match port_number(c.1) {
            Some(p) => c.1 == decimal_of(p as nat),
            None => false,
        },
        None => true,
    }
}

/// An `ssh://` address without a port, or with one that is written as numbers
/// are written, rebuilt with its own host and nothing configured, is the
/// address itself.
pub proof fn rebuilding_restores_an_ssh_address(url: Seq<char>)
    requires
        "ssh://"@.is_prefix_of(url),
        plain_port(
            user_and_host(authority_and_path(url.skip("ssh://"@.len() as int)).0).1,
        ),
    ensures
        url_parts(url) is Some,
        url_parts(url).unwrap().rebuilt(url_parts(url).unwrap().host, None, None) == url,
{
    let rest = url.skip("ssh://"@.len() as int);
    let (authority, tail) = authority_and_path(rest);
    let p = url_parts(url).unwrap();
    rest.index_of_first_ensures('/');
    user_and_host_join(authority);
    let (user, hostport) = user_and_host(authority);
    assert(p.host + port_suffix(p.port) == hostport) by {
        reveal_strlit(":");
        assert(":"@ =~= seq![':']);
        if cut_last(hostport, ':') is Some {
            cut_last_joins(hostport, ':');
            let c = cut_last(hostport, ':').unwrap();
            assert(c.0 + (":"@ + c.1) =~= c.0 + seq![':'] + c.1);
        } else {
            assert(hostport + port_suffix(None) =~= hostport);
        }
    }
    assert(authority + tail =~= rest);
    assert("ssh://"@ + rest =~= url);
    assert("ssh://"@ + user_prefix(p.user) + p.host + port_suffix(p.port) + p.tail =~= "ssh://"@
        + ((user_prefix(p.user) + (p.host + port_suffix(p.port))) + p.tail));
}

/// An address of another scheme is itself however it is rebuilt.
pub proof fn other_schemes_are_not_rewritten(
    url: Seq<char>,
    hostname: Seq<char>,
    user: Option<Seq<char>>,
    port: Option<u16>,
)
    requires
        has_text(url, "://"@),
        !"ssh://"@.is_prefix_of(url),
    ensures
        url_parts(url) is Some,
        url_parts(url).unwrap().rebuilt(hostname, user, port) == url,
{
    let i = first_occurrence(url, "://"@).unwrap();
    text::first_is_there(url, "://"@);
    let scheme = url.take(i);
    assert(url.take(i) + url.skip(i) =~= url);
    if scheme == "ssh"@ {
        reveal_strlit("ssh");
        reveal_strlit("://");
        reveal_strlit("ssh://");
        assert(url.subrange(i, i + 3) == "://"@);
        assert(url.take(6) =~= url.take(i) + url.subrange(i, i + 3));
        assert("ssh"@ + "://"@ =~= "ssh://"@);
        assert(url.subrange(0, 6) =~= url.take(6));
    }
}

/// No user is left before the host of a redacted address.
pub proof fn redacting_leaves_no_user(url: Seq<char>)
    ensures
        match first_occurrence(url, "://"@) {
            Some(i) => !authority_and_path(redacted(url).skip(i + 3)).0.contains('@'),
            None => !short_authority(redacted(url)).contains('@'),
        },
{
    match first_occurrence(url, "://"@) {
        Some(i) => {
            text::first_is_there(url, "://"@);
            reveal_strlit("://");
            let rest = url.skip(i + 3);
            let (authority, path) = authority_and_path(rest);
            let host = user_and_host(authority).1;
            rest.index_of_first_ensures('/');
            host_names_no_user(authority);
            assert(redacted(url).skip(i + 3) =~= host + path);
            host_comes_first(host, path);
        },
        None => {
            let before = match cut_first(url, ':') {
                Some(c) => c.0,
                None => url,
            };
            let authority = short_authority(url);
            let host = user_and_host(authority).1;
            let rest = url.skip(authority.len() as int);
            url.index_of_first_ensures(':');
            before.index_of_first_ensures('/');
            host_names_no_user(authority);
            let all = host + rest;
            assert(redacted(url) == all);
            all.index_of_first_ensures(':');
            let k = authority.len() as int;
            assert(authority =~= url.take(k));
            assert(!authority.contains(':')) by {
                if authority.contains(':') {
                    let i = choose|i: int| 0 <= i < k && authority[i] == ':';
                    assert(url[i] == ':');
                    assert(url.contains(':'));
                }
            }
            assert(!authority.contains('/')) by {
                if authority.contains('/') {
                    let i = choose|i: int| 0 <= i < k && authority[i] == '/';
                    assert(before[i] == '/');
                    assert(before.contains('/'));
                }
            }
            assert(!host.contains(':') && !host.contains('/'));
            assert(rest.len() == 0 || rest[0] == ':' || rest[0] == '/') by {
                if rest.len() > 0 {
                    assert(rest[0] == url[k]);
                }
            }
            if rest.len() > 0 {
                assert(all[host.len() as int] == rest[0]);
            }
            match cut_first(all, ':') {
                Some(c) => {
                    let n = c.0.len() as int;
                    assert(n >= host.len()) by {
                        if n < host.len() {
                            assert(host[n] == ':');
                        }
                    }
                    assert(c.0 =~= host + rest.take(n - host.len()));
                    host_comes_first(host, rest.take(n - host.len()));
                },
                None => {
                    host_comes_first(host, rest);
                },
            }
        },
    }
}

/// What follows the user in an authority names none, and is part of it.
proof fn host_names_no_user(authority: Seq<char>)
    ensures
        !user_and_host(authority).1.contains('@'),
        forall|c: char| #[trigger]
            user_and_host(authority).1.contains(c) ==> authority.contains(c),
{
    authority.index_of_last_ensures('@');
    let h = user_and_host(authority).1;
    let from = authority.len() - h.len();
    assert forall|k: int| 0 <= k < h.len() implies #[trigger] h[k] == authority[from + k] by {}
    if h.contains('@') {
        let k = choose|k: int| 0 <= k < h.len() && h[k] == '@';
        assert(authority[from + k] == '@');
    }
    assert forall|c: char| #[trigger] h.contains(c) implies authority.contains(c) by {
        let k = choose|k: int| 0 <= k < h.len() && h[k] == c;
        assert(authority[from + k] == c);
    }
}

/// A host without a slash is the authority of what it and a path make.
proof fn host_comes_first(host: Seq<char>, path: Seq<char>)
    requires
        !host.contains('/'),
        path.len() == 0 || path[0] == '/',
    ensures
        authority_and_path(host + path).0 == host,
{
    let all = host + path;
    all.index_of_first_ensures('/');
    if path.len() == 0 {
        assert(all =~= host);
    } else {
        assert(all[host.len() as int] == '/');
        let i = all.index_of_first('/').unwrap();
        if i < host.len() {
            assert(host[i] == '/');
        }
        assert(all.take(i) =~= host);
    }
}

/// Where the configuration gives no other host name, and no user or port that
/// the address lacks, the address stays as it is.
pub proof fn without_overrides_the_address_stays(
    url: Seq<char>,
    parts: GitUrlView,
    host: ResolvedHostView,
)
    requires
        host.hostname == parts.host,
        parts.user is Some || host.user is None,
        parts.port is Some || host.port is None,
    ensures
        effective_url(url, parts, host) == url,
{
}

/// Without a configuration every address stays as it is.
pub proof fn no_configuration_changes_nothing(url: Seq<char>, home: Option<Seq<char>>)
    ensures
        ssh_config_applied(url, None, home).0 == url,
{
}

/// Addresses with a scheme other than `ssh` stay as they are, whatever is
/// configured, and no host settings apply to them.
pub proof fn other_schemes_are_left_alone(
    url: Seq<char>,
    config: Option<&SshConfig>,
    home: Option<Seq<char>>,
)
    requires
        has_text(url, "://"@),
        !"ssh://"@.is_prefix_of(url),
    ensures
        ssh_config_applied(url, config, home) == (url, None::<ResolvedHostView>),
{
}

} // verus!
