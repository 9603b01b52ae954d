//! `~/.ssh/config` settings of a host: `HostName`, `User`, `Port`,
//! `IdentityFile` and `IdentitiesOnly`.
use ssh2_config::SshConfig;
use vstd::prelude::*;
use vstd::string::*;

use crate::paths;
use crate::paths::joined_path;
use crate::text;
use crate::text::{after_prefix, ascii_lowercase, opt_view, texts};

verus! {

/// A parsed ssh configuration: a list of host rules.
#[verifier::external_type_specification]
#[verifier::external_body]
pub struct ExSshConfig(SshConfig);

/// What the rules of a configuration say of a host, by the host's name and
/// the name of one field that they hold as bare values: the effective host
/// name, the user, the port, the identity files, and the values of the field.
pub uninterp spec fn host_rules(config: SshConfig) -> Map<
    (Seq<char>, Seq<char>),
    (
        Option<Seq<char>>,
        Option<Seq<char>>,
        Option<u16>,
        Option<Seq<Seq<char>>>,
        Option<Seq<Seq<char>>>,
    ),
>;

/// The settings of one host.
pub struct HostSettings {
    pub host_name: Option<String>,
    pub user: Option<String>,
    pub port: Option<u16>,
    pub identity_file: Option<Vec<String>>,
    /// The values of a field that the parser keeps without reading.
    pub extra: Option<Vec<String>>,
}

pub open spec fn opt_texts(v: Option<Vec<String>>) -> Option<Seq<Seq<char>>> {
    match v {
        Some(l) => Some(texts(l@)),
        None => None,
    }
}

impl View for HostSettings {
    type V = (
        Option<Seq<char>>,
        Option<Seq<char>>,
        Option<u16>,
        Option<Seq<Seq<char>>>,
        Option<Seq<Seq<char>>>,
    );

    open spec fn view(&self) -> Self::V {
        (
            opt_view(self.host_name),
            opt_view(self.user),
            self.port,
            opt_texts(self.identity_file),
            opt_texts(self.extra),
        )
    }
}

/// `SshConfig::query`: every host has settings, and they depend on the rules,
/// the host and the field that is read out alone. The paths of identity files
/// come as text, with what is not Unicode in them replaced.
#[verifier::external_body]
fn query(config: &SshConfig, host: &str, field: &str) -> (r: HostSettings)
    ensures
        r@ == host_rules(*config)[(host@, field@)],
{
    let p = config.query(host);
    HostSettings {
        host_name: p.host_name,
        user: p.user,
        port: p.port,
        identity_file: p.identity_file.map(
            |v| v.iter().map(|f| f.to_string_lossy().into_owned()).collect(),
        ),
        extra: p.unsupported_fields.get(field).cloned(),
    }
}

/// A host as the ssh configuration resolves it.
pub struct ResolvedHost {
    /// Effective host name; the name asked for where no rule rewrites it.
    pub hostname: String,
    pub user: Option<String>,
    pub port: Option<u16>,
    /// `IdentityFile` entries in declaration order, with `~/` expanded.
    pub identity_files: Vec<String>,
    /// `IdentitiesOnly yes`: only configured keys should be tried.
    pub identities_only: bool,
}

/// What a resolved host holds.
pub struct ResolvedHostView {
    pub hostname: Seq<char>,
    pub user: Option<Seq<char>>,
    pub port: Option<u16>,
    pub identity_files: Seq<Seq<char>>,
    pub identities_only: bool,
}

impl View for ResolvedHost {
    type V = ResolvedHostView;

    open spec fn view(&self) -> ResolvedHostView {
        ResolvedHostView {
            hostname: self.hostname@,
            user: opt_view(self.user),
            port: self.port,
            identity_files: texts(self.identity_files@),
            identities_only: self.identities_only,
        }
    }
}

pub open spec fn opt_str_view(s: Option<&str>) -> Option<Seq<char>> {
    match s {
        Some(t) => Some(t@),
        None => None,
    }
}

/// A path with `~/` at its front taken from the home directory, where that
/// is known.
pub open spec fn tilde_expanded(path: Seq<char>, home: Option<Seq<char>>) -> Seq<char> {
    match (after_prefix(path, "~/"@), home) {
        (Some(rest), Some(h)) => joined_path(h, rest),
        _ => path,
    }
}

/// Expands `~/` at the front of a path.
pub fn expand_tilde(path: &str, home: Option<&str>) -> (r: String)
    ensures
        r@ == tilde_expanded(path@, opt_str_view(home)),
{
    match text::strip_prefix(path, "~/") {
        Some(rest) => match home {
            Some(h) => paths::join(h, rest.as_str()),
            None => text::copy(path),
        },
        None => text::copy(path),
    }
}

/// A value that switches a setting on.
pub open spec fn switches_on(v: Seq<char>) -> bool {
    let l = ascii_lowercase(v);
    l == "yes"@ || l == "true"@ || l == "on"@ || l == "1"@
}

/// A host with the settings that its rules give, none where there is no
/// configuration.
pub open spec fn resolved_with(
    host: Seq<char>,
    settings: Option<
        (
            Option<Seq<char>>,
            Option<Seq<char>>,
            Option<u16>,
            Option<Seq<Seq<char>>>,
            Option<Seq<Seq<char>>>,
        ),
    >,
    home: Option<Seq<char>>,
) -> ResolvedHostView {
    match settings {
        None => ResolvedHostView {
            hostname: host,
            user: None,
            port: None,
            identity_files: seq![],
            identities_only: false,
        },
        Some(s) => ResolvedHostView {
            hostname: match s.0 {
                Some(h) => h,
                None => host,
            },
            user: s.1,
            port: s.2,
            identity_files: match s.3 {
                Some(files) => files.map_values(|f: Seq<char>| tilde_expanded(f, home)),
                None => seq![],
            },
            identities_only: match s.4 {
                Some(values) => values.len() > 0 && switches_on(values[0]),
                None => false,
            },
        },
    }
}

pub open spec fn opt_settings(s: Option<HostSettings>) -> Option<
    (
        Option<Seq<char>>,
        Option<Seq<char>>,
        Option<u16>,
        Option<Seq<Seq<char>>>,
        Option<Seq<Seq<char>>>,
    ),
> {
    match s {
        Some(t) => Some(t@),
        None => None,
    }
}

/// A host with the given settings.
pub fn resolve_with(host: &str, settings: Option<HostSettings>, home: Option<&str>) -> (r:
    ResolvedHost)
    ensures
        r@ == resolved_with(host@, opt_settings(settings), opt_str_view(home)),
{
    let ghost asked = opt_settings(settings);
    let mut out = ResolvedHost {
        hostname: text::copy(host),
        user: None,
        port: None,
        identity_files: Vec::new(),
        identities_only: false,
    };
    let s = match settings {
        Some(s) => s,
        None => {
            assert(texts(out.identity_files@) =~= seq![]);
            return out;
        },
    };
    if let Some(h) = s.host_name {
        out.hostname = h;
    }
    out.user = s.user;
    out.port = s.port;
    let ghost want = resolved_with(host@, asked, opt_str_view(home)).identity_files;
    if let Some(files) = s.identity_file {
        let mut i: usize = 0;
        let mut expanded: Vec<String> = Vec::new();
        while i < files.len()
            invariant
                i <= files@.len(),
                want == texts(files@).map_values(
                    |f: Seq<char>| tilde_expanded(f, opt_str_view(home)),
                ),
                texts(expanded@) == want.take(i as int),
            decreases files@.len() - i,
        {
            let f = expand_tilde(files[i].as_str(), home);
            proof {
                text::texts_push(expanded@, f);
                assert(texts(files@)[i as int] == files@[i as int]@);
                assert(want.take(i + 1) =~= want.take(i as int).push(want[i as int]));
            }
            expanded.push(f);
            i = i + 1;
        }
        assert(want.take(i as int) =~= want);
        out.identity_files = expanded;
    } else {
        assert(texts(out.identity_files@) =~= want);
    }
    if let Some(values) = s.extra {
        if values.len() > 0 {
            let v = text::to_ascii_lowercase(values[0].as_str());
            assert(texts(values@)[0] == values@[0]@);
            out.identities_only = text::same(v.as_str(), "yes") || text::same(v.as_str(), "true")
                || text::same(v.as_str(), "on") || text::same(v.as_str(), "1");
        }
    }
    out
}

/// What the rules of a configuration, where there is one, say of a host.
pub open spec fn rules_for(config: Option<&SshConfig>, host: Seq<char>) -> Option<
    (
        Option<Seq<char>>,
        Option<Seq<char>>,
        Option<u16>,
        Option<Seq<Seq<char>>>,
        Option<Seq<Seq<char>>>,
    ),
> {
    match config {
        Some(c) => Some(host_rules(*c)[(host, "identitiesonly"@)]),
        None => None,
    }
}

/// A host as a configuration resolves it. `IdentitiesOnly` is one of the
/// fields that the parser keeps without reading.
pub fn resolve(host: &str, config: Option<&SshConfig>, home: Option<&str>) -> (r: ResolvedHost)
    ensures
        r@ == resolved_with(host@, rules_for(config, host@), opt_str_view(home)),
{
    match config {
        Some(c) => {
            let s = query(c, host, "identitiesonly");
            resolve_with(host, Some(s), home)
        },
        None => resolve_with(host, None, home),
    }
}

/// Only `~/` at the front of a path is expanded: every other path stays.
pub proof fn other_paths_stay(path: Seq<char>, home: Option<Seq<char>>)
    requires
        !"~/"@.is_prefix_of(path),
    ensures
        tilde_expanded(path, home) == path,
{
}

} // verus!
