//! The credentials that are offered to a server.
//!
//! A connection asks for a credential again each time the server rejects the
//! one it was given. Every method is offered once, in a fixed order, and then
//! the connection is told that there is none left, so that it ends.
use vstd::prelude::*;
use vstd::string::*;

use crate::git::ssh_config::{opt_str_view, ResolvedHost, ResolvedHostView};
use crate::paths;
use crate::paths::{same_path, with_extension_of};
use crate::text;
use crate::text::{joined, opt_view, texts};

verus! {

/// The number of requests that one connection is answered.
pub const MAX_ATTEMPTS: usize = 16;

/// The kinds of credential that a server accepts.
#[derive(Debug, Clone, Copy, PartialEq, Eq, Structural)]
pub struct AllowedTypes {
    pub ssh_key: bool,
    pub ssh_memory: bool,
    pub user_pass_plaintext: bool,
    pub username: bool,
    pub default: bool,
}

/// What has been offered on one connection.
pub struct CredState {
    pub attempts: usize,
    /// Private keys to try, in order.
    pub ssh_keys: Vec<String>,
    pub ssh_key_idx: usize,
    /// Skip the agent: only the listed keys are used.
    pub identities_only: bool,
    /// The user for addresses that name none.
    pub configured_user: Option<String>,
    pub tried_agent: bool,
    pub tried_helper: bool,
    pub tried_username_only: bool,
    pub tried_default: bool,
}

/// What the state of a connection holds.
pub struct CredView {
    pub attempts: nat,
    pub keys: Seq<Seq<char>>,
    pub next_key: nat,
    pub identities_only: bool,
    pub user: Option<Seq<char>>,
    pub tried_agent: bool,
    pub tried_helper: bool,
    pub tried_username_only: bool,
    pub tried_default: bool,
}

impl View for CredState {
    type V = CredView;

    open spec fn view(&self) -> CredView {
        CredView {
            attempts: self.attempts as nat,
            keys: texts(self.ssh_keys@),
            next_key: self.ssh_key_idx as nat,
            identities_only: self.identities_only,
            user: opt_view(self.configured_user),
            tried_agent: self.tried_agent,
            tried_helper: self.tried_helper,
            tried_username_only: self.tried_username_only,
            tried_default: self.tried_default,
        }
    }
}

/// What to answer a request with.
pub enum Offer {
    /// The ssh agent, for a user.
    Agent(String),
    /// A private key, and where its public half would stand.
    Key { user: String, private: String, public: String },
    /// The credential helper.
    Helper,
    /// A user name alone.
    Username(String),
    /// The default credential; the answer is final, made or not.
    Default,
    /// Nothing: the text says why.
    Nothing(String),
}

pub enum OfferView {
    Agent(Seq<char>),
    Key { user: Seq<char>, private: Seq<char>, public: Seq<char> },
    Helper,
    Username(Seq<char>),
    Default,
    Nothing(Seq<char>),
}

impl View for Offer {
    type V = OfferView;

    open spec fn view(&self) -> OfferView {
        match self {
            Offer::Agent(u) => OfferView::Agent(u@),
            Offer::Key { user, private, public } => OfferView::Key {
                user: user@,
                private: private@,
                public: public@,
            },
            Offer::Helper => OfferView::Helper,
            Offer::Username(u) => OfferView::Username(u@),
            Offer::Default => OfferView::Default,
            Offer::Nothing(s) => OfferView::Nothing(s@),
        }
    }
}

// ── Keys ─────────────────────────────────

/// Some path of `v` is the same path as `p`.
pub open spec fn holds_path(v: Seq<Seq<char>>, p: Seq<char>) -> bool {
    exists|i: int| 0 <= i < v.len() && same_path(#[trigger] v[i], p)
}

/// `base` and then the paths of `more`, each added unless it is there already.
pub open spec fn with_new_paths(base: Seq<Seq<char>>, more: Seq<Seq<char>>) -> Seq<Seq<char>>
    decreases more.len(),
{
    if more.len() == 0 {
        base
    } else {
        let so_far = with_new_paths(base, more.drop_last());
        if holds_path(so_far, more.last()) {
            so_far
        } else {
            so_far.push(more.last())
        }
    }
}

/// Whether some path of `v` is the same path as `p`.
fn has_path(v: &Vec<String>, p: &str) -> (r: bool)
    ensures
        r == holds_path(texts(v@), p@),
{
    let mut i: usize = 0;
    while i < v.len()
        invariant
            i <= v@.len(),
            forall|j: int| 0 <= j < i ==> !same_path(#[trigger] texts(v@)[j], p@),
        decreases v@.len() - i,
    {
        assert(texts(v@)[i as int] == v@[i as int]@);
        if paths::same(v[i].as_str(), p) {
            return true;
        }
        i = i + 1;
    }
    false
}

/// Adds the paths of `more` that are not there already.
fn add_new_paths(base: Vec<String>, more: &Vec<String>) -> (r: Vec<String>)
    ensures
        texts(r@) == with_new_paths(texts(base@), texts(more@)),
{
    let ghost start = texts(base@);
    let ghost all = texts(more@);
    let mut out = base;
    let mut i: usize = 0;
    assert(all.take(0) =~= seq![]);
    while i < more.len()
        invariant
            all == texts(more@),
            i <= more@.len(),
            texts(out@) == with_new_paths(start, all.take(i as int)),
        decreases more@.len() - i,
    {
        assert(all.take(i + 1).drop_last() =~= all.take(i as int));
        assert(all.take(i + 1).last() == more@[i as int]@);
        if !has_path(&out, more[i].as_str()) {
            proof {
                text::texts_push(out@, more@[i as int]);
            }
            out.push(more[i].clone());
        }
        i = i + 1;
    }
    assert(all.take(i as int) =~= all);
    out
}

/// The directory that keys are looked for in.
pub fn ssh_dir(home: Option<&str>) -> (r: String)
    ensures
        r@ == paths::joined_path(
            match home {
                Some(h) => h@,
                None => "/Users"@,
            },
            ".ssh"@,
        ),
{
    match home {
        Some(h) => paths::join(h, ".ssh"),
        None => paths::join("/Users", ".ssh"),
    }
}

/// The names of private keys, in order of preference.
pub open spec fn standard_key_names() -> Seq<Seq<char>> {
    seq![
        "id_ed25519"@,
        "id_ed25519_sk"@,
        "id_ecdsa"@,
        "id_ecdsa_sk"@,
        "id_rsa"@,
        "id_dsa"@,
    ]
}

/// The private keys that the public keys of a listing belong to.
pub open spec fn paired_keys(entries: Seq<Seq<char>>) -> Seq<Seq<char>>
    decreases entries.len(),
{
    if entries.len() == 0 {
        seq![]
    } else {
        let so_far = paired_keys(entries.drop_last());
        if paths::extension_of(entries.last()) == Some("pub"@) {
            so_far.push(with_extension_of(entries.last(), seq![]))
        } else {
            so_far
        }
    }
}

/// Where private keys may stand: under the standard names first, then beside
/// the public keys of the listing.
pub open spec fn key_candidates(dir: Seq<char>, entries: Seq<Seq<char>>) -> Seq<Seq<char>> {
    standard_key_names().map_values(|n: Seq<char>| paths::joined_path(dir, n)) + paired_keys(
        entries,
    )
}

/// Where private keys may stand in the directory `dir` with the given listing.
pub fn candidate_keys(dir: &str, entries: &Vec<String>) -> (r: Vec<String>)
    ensures
        texts(r@) == key_candidates(dir@, texts(entries@)),
{
    let mut out: Vec<String> = Vec::new();
    out.push(paths::join(dir, "id_ed25519"));
    out.push(paths::join(dir, "id_ed25519_sk"));
    out.push(paths::join(dir, "id_ecdsa"));
    out.push(paths::join(dir, "id_ecdsa_sk"));
    out.push(paths::join(dir, "id_rsa"));
    out.push(paths::join(dir, "id_dsa"));
    let ghost base = standard_key_names().map_values(|n: Seq<char>| paths::joined_path(dir@, n));
    let ghost all = texts(entries@);
    assert(texts(out@) =~= base);
    assert(all.take(0) =~= seq![]);
    assert(base + paired_keys(all.take(0)) =~= base);
    let mut i: usize = 0;
    while i < entries.len()
        invariant
            all == texts(entries@),
            i <= entries@.len(),
            texts(out@) == base + paired_keys(all.take(i as int)),
        decreases entries@.len() - i,
    {
        assert(all.take(i + 1).drop_last() =~= all.take(i as int));
        assert(all.take(i + 1).last() == entries@[i as int]@);
        if let Some(e) = paths::extension(entries[i].as_str()) {
            if text::same(e.as_str(), "pub") {
                let k = paths::with_extension(entries[i].as_str(), "");
                proof {
                    reveal_strlit("");
                    assert(""@ =~= seq![]);
                    text::texts_push(out@, k);
                    assert(base + paired_keys(all.take(i as int)).push(k@) =~= (base + paired_keys(
                        all.take(i as int),
                    )).push(k@));
                }
                out.push(k);
            }
        }
        i = i + 1;
    }
    assert(all.take(i as int) =~= all);
    out
}

/// The candidates that exist.
pub open spec fn existing(candidates: Seq<Seq<char>>, exist: Seq<bool>) -> Seq<Seq<char>>
    decreases candidates.len(),
{
    if candidates.len() == 0 {
        seq![]
    } else {
        let so_far = existing(candidates.drop_last(), exist);
        if exist[candidates.len() - 1] {
            so_far.push(candidates.last())
        } else {
            so_far
        }
    }
}

/// The candidates that exist, each once; `exist` says of each whether it does.
pub fn discover_ssh_keys(candidates: Vec<String>, exist: &Vec<bool>) -> (r: Vec<String>)
    requires
        exist@.len() == candidates@.len(),
    ensures
        texts(r@) == with_new_paths(seq![], existing(texts(candidates@), exist@)),
{
    let ghost all = texts(candidates@);
    let mut out: Vec<String> = Vec::new();
    assert(all.take(0) =~= seq![]);
    assert(texts(out@) =~= seq![]);
    let mut i: usize = 0;
    while i < candidates.len()
        invariant
            all == texts(candidates@),
            exist@.len() == candidates@.len(),
            i <= candidates@.len(),
            texts(out@) == with_new_paths(seq![], existing(all.take(i as int), exist@)),
        decreases candidates@.len() - i,
    {
        let ghost before = existing(all.take(i as int), exist@);
        assert(all.take(i + 1).drop_last() =~= all.take(i as int));
        assert(all.take(i + 1).last() == candidates@[i as int]@);
        if exist[i] {
            assert(before.push(candidates@[i as int]@).drop_last() =~= before);
            if !has_path(&out, candidates[i].as_str()) {
                proof {
                    text::texts_push(out@, candidates@[i as int]);
                }
                out.push(candidates[i].clone());
            }
        }
        i = i + 1;
    }
    assert(all.take(i as int) =~= all);
    out
}

/// The count of attempts after another one. It stays at the largest number
/// that it can hold.
pub open spec fn counted_once_more(attempts: nat) -> nat {
    if attempts < usize::MAX {
        attempts + 1
    } else {
        attempts
    }
}

impl CredView {
    /// A connection on which nothing was offered yet. With a configured host
    /// its keys come first, and the discovered ones are added unless only the
    /// configured ones are wanted.
    pub open spec fn fresh(host: Option<ResolvedHostView>, discovered: Seq<Seq<char>>) -> CredView {
        CredView {
            attempts: 0,
            keys: match host {
                Some(h) => if h.identities_only {
                    h.identity_files
                } else {
                    with_new_paths(h.identity_files, discovered)
                },
                None => discovered,
            },
            next_key: 0,
            identities_only: match host {
                Some(h) => h.identities_only,
                None => false,
            },
            user: match host {
                Some(h) => h.user,
                None => None,
            },
            tried_agent: false,
            tried_helper: false,
            tried_username_only: false,
            tried_default: false,
        }
    }

    /// The user to log in as.
    pub open spec fn user_for(self, from_url: Option<Seq<char>>) -> Seq<char> {
        match from_url {
            Some(u) => u,
            None => match self.user {
                Some(u) => u,
                None => "git"@,
            },
        }
    }

    /// The methods that were offered, as the user is told of them.
    pub open spec fn tried(self) -> Seq<Seq<char>> {
        (if self.tried_agent {
            seq!["ssh-agent"@]
        } else {
            seq![]
        }) + (if self.next_key > 0 {
            seq!["~/.ssh keys"@]
        } else {
            seq![]
        }) + (if self.tried_helper {
            seq!["credential helper"@]
        } else {
            seq![]
        }) + (if self.tried_default {
            seq!["default"@]
        } else {
            seq![]
        })
    }

    /// Why there is nothing left to offer.
    pub open spec fn reason(self) -> Seq<char> {
        if self.tried().len() == 0 {
            "auth: no usable authentication method advertised by server"@
        } else {
            "auth: all methods rejected ("@ + joined(self.tried(), ", "@) + ")"@
        }
    }

    /// The agent can still be offered.
    pub open spec fn agent_left(self) -> bool {
        !self.tried_agent && !self.identities_only
    }

    /// The first method that was not offered yet and that the server accepts,
    /// and the state with it offered.
    pub open spec fn pick(self, from_url: Option<Seq<char>>, allowed: AllowedTypes) -> (
        CredView,
        OfferView,
    ) {
        let user = self.user_for(from_url);
        let named = if allowed.username {
            CredView { tried_username_only: true, ..self }
        } else {
            self
        };
        if allowed.ssh_key && self.agent_left() {
            (CredView { tried_agent: true, ..self }, OfferView::Agent(user))
        } else if allowed.ssh_key && self.next_key < self.keys.len() {
            let key = self.keys[self.next_key as int];
            (
                CredView { next_key: self.next_key + 1, ..self },
                OfferView::Key { user, private: key, public: with_extension_of(key, "pub"@) },
            )
        } else if allowed.ssh_memory && self.agent_left() {
            (CredView { tried_agent: true, ..self }, OfferView::Agent(user))
        } else if allowed.user_pass_plaintext && !self.tried_helper {
            (CredView { tried_helper: true, ..self }, OfferView::Helper)
        } else if allowed.username && !self.tried_username_only && from_url is Some {
            (named, OfferView::Username(from_url.unwrap()))
        } else if allowed.default && !self.tried_default {
            (CredView { tried_default: true, ..named }, OfferView::Default)
        } else {
            (named, OfferView::Nothing(named.reason()))
        }
    }

    /// Nothing that was tried in the other state is forgotten, and the keys
    /// and settings are the same.
    pub open spec fn has_tried_all_of(self, other: CredView) -> bool {
        &&& other.tried_agent ==> self.tried_agent
        &&& other.tried_helper ==> self.tried_helper
        &&& other.tried_username_only ==> self.tried_username_only
        &&& other.tried_default ==> self.tried_default
        &&& other.next_key <= self.next_key
        &&& other.keys == self.keys
        &&& other.identities_only == self.identities_only
        &&& other.user == self.user
    }

    /// The answer to a request. A request that goes on where the last offer
    /// could not be made does not count as another attempt.
    pub open spec fn answer(
        self,
        from_url: Option<Seq<char>>,
        allowed: AllowedTypes,
        goes_on: bool,
    ) -> (CredView, OfferView) {
        if goes_on {
            self.pick(from_url, allowed)
        } else {
            let counted = CredView { attempts: counted_once_more(self.attempts), ..self };
            if counted.attempts > MAX_ATTEMPTS {
                (
                    counted,
                    OfferView::Nothing("auth: too many credential attempts — giving up"@),
                )
            } else {
                counted.pick(from_url, allowed)
            }
        }
    }

    /// The number of methods that were not offered yet.
    pub open spec fn left(self) -> int {
        (self.keys.len() - self.next_key) + (if self.agent_left() {
            1int
        } else {
            0
        }) + (if self.tried_helper {
            0int
        } else {
            1
        }) + (if self.tried_username_only {
            0int
        } else {
            1
        }) + (if self.tried_default {
            0int
        } else {
            1
        })
    }

    /// The next key is one of the keys, or there is none left.
    pub open spec fn valid(self) -> bool {
        self.next_key <= self.keys.len()
    }
}

impl CredState {
    /// A connection on which nothing was offered yet.
    pub fn new(host: Option<ResolvedHost>, discovered: Vec<String>) -> (r: Self)
        ensures
            r@ == CredView::fresh(
                crate::git::remote_url::opt_host_view(host),
                texts(discovered@),
            ),
            r@.valid(),
    {
        let (ssh_keys, identities_only, configured_user) = match host {
            Some(h) => {
                let keys = if h.identities_only {
                    h.identity_files
                } else {
                    add_new_paths(h.identity_files, &discovered)
                };
                (keys, h.identities_only, h.user)
            },
            None => (discovered, false, None),
        };
        CredState {
            attempts: 0,
            ssh_keys,
            ssh_key_idx: 0,
            identities_only,
            configured_user,
            tried_agent: false,
            tried_helper: false,
            tried_username_only: false,
            tried_default: false,
        }
    }

    /// The user to log in as.
    fn login(&self, from_url: Option<&str>) -> (r: String)
        ensures
            r@ == self@.user_for(opt_str_view(from_url)),
    {
        match from_url {
            Some(u) => text::copy(u),
            None => match &self.configured_user {
                Some(u) => u.clone(),
                None => text::copy("git"),
            },
        }
    }

    /// Why there is nothing left to offer.
    fn give_up(&self) -> (r: String)
        ensures
            r@ == self@.reason(),
    {
        let mut tried: Vec<String> = Vec::new();
        if self.tried_agent {
            tried.push(text::copy("ssh-agent"));
        }
        if self.ssh_key_idx > 0 {
            tried.push(text::copy("~/.ssh keys"));
        }
        if self.tried_helper {
            tried.push(text::copy("credential helper"));
        }
        if self.tried_default {
            tried.push(text::copy("default"));
        }
        assert(texts(tried@) =~= self@.tried());
        if tried.len() == 0 {
            text::copy("auth: no usable authentication method advertised by server")
        } else {
            let list = text::join(&tried, ", ");
            text::copy("auth: all methods rejected (").concat(list.as_str()).concat(")")
        }
    }
}

/// Picks the next method that the server accepts and that was not tried.
fn pick_credential(
    state: &mut CredState,
    username_from_url: Option<&str>,
    allowed: AllowedTypes,
) -> (r: Offer)
    requires
        old(state)@.valid(),
    ensures
        (final(state)@, r@) == old(state)@.pick(opt_str_view(username_from_url), allowed),
{
    if allowed.ssh_key {
        let user = state.login(username_from_url);
        if !state.tried_agent && !state.identities_only {
            state.tried_agent = true;
            return Offer::Agent(user);
        }
        if state.ssh_key_idx < state.ssh_keys.len() {
            let private = state.ssh_keys[state.ssh_key_idx].clone();
            assert(texts(state.ssh_keys@)[state.ssh_key_idx as int] == private@);
            state.ssh_key_idx = state.ssh_key_idx + 1;
            let public = paths::with_extension(private.as_str(), "pub");
            return Offer::Key { user, private, public };
        }
    }
    if allowed.ssh_memory && !state.tried_agent && !state.identities_only {
        state.tried_agent = true;
        let user = state.login(username_from_url);
        return Offer::Agent(user);
    }
    if allowed.user_pass_plaintext && !state.tried_helper {
        state.tried_helper = true;
        return Offer::Helper;
    }
    if allowed.username && !state.tried_username_only {
        state.tried_username_only = true;
        if let Some(user) = username_from_url {
            return Offer::Username(text::copy(user));
        }
    }
    if allowed.default && !state.tried_default {
        state.tried_default = true;
        return Offer::Default;
    }
    let why = state.give_up();
    Offer::Nothing(why)
}

/// Answers a request for a credential. `goes_on` says that the last offer to
/// the same request could not be made.
pub fn try_next_credential(
    state: &mut CredState,
    username_from_url: Option<&str>,
    allowed: AllowedTypes,
    goes_on: bool,
) -> (r: Offer)
    requires
        old(state)@.valid(),
    ensures
        (final(state)@, r@) == old(state)@.answer(
            opt_str_view(username_from_url),
            allowed,
            goes_on,
        ),
        final(state)@.valid(),
        r is Nothing || final(state)@.left() < old(state)@.left(),
        final(state).identities_only ==> !(r is Agent),
        final(state)@.has_tried_all_of(old(state)@),
        r is Nothing || !old(state)@.has_tried_all_of(final(state)@),
{
    proof {
        an_answer_forgets_nothing(
            old(state)@,
            Ask { from_url: opt_str_view(username_from_url), allowed, goes_on },
        );
    }
    if !goes_on {
        if state.attempts < usize::MAX {
            state.attempts = state.attempts + 1;
        }
        if state.attempts > MAX_ATTEMPTS {
            return Offer::Nothing(text::copy("auth: too many credential attempts — giving up"));
        }
    }
    pick_credential(state, username_from_url, allowed)
}

/// What the user is told while an offer is made.
pub open spec fn offer_text(o: OfferView) -> Option<Seq<char>> {
    match o {
        OfferView::Agent(user) => Some("auth: ssh-agent ("@ + user + ")"@),
        OfferView::Key { user, private, public } => Some("auth: "@ + private),
        OfferView::Helper => Some("auth: credential helper"@),
        OfferView::Username(user) => Some("auth: username ("@ + user + ")"@),
        OfferView::Default => Some("auth: default"@),
        OfferView::Nothing(_) => None,
    }
}

/// What the user is told while an offer is made.
pub fn offer_stage(o: &Offer) -> (r: Option<String>)
    ensures
        opt_view(r) == offer_text(o@),
{
    match o {
        Offer::Agent(user) => Some(
            text::copy("auth: ssh-agent (").concat(user.as_str()).concat(")"),
        ),
        Offer::Key { user: _, private, public: _ } => Some(
            text::copy("auth: ").concat(private.as_str()),
        ),
        Offer::Helper => Some(text::copy("auth: credential helper")),
        Offer::Username(user) => Some(
            text::copy("auth: username (").concat(user.as_str()).concat(")"),
        ),
        Offer::Default => Some(text::copy("auth: default")),
        Offer::Nothing(_) => None,
    }
}

// ── Laws ─────────────────────────────────

/// One request of a connection.
pub struct Ask {
    pub from_url: Option<Seq<char>>,
    pub allowed: AllowedTypes,
    pub goes_on: bool,
}

/// The state of a connection after some requests.
pub open spec fn after_asks(s: CredView, asks: Seq<Ask>) -> CredView
    decreases asks.len(),
{
    if asks.len() == 0 {
        s
    } else {
        let before = after_asks(s, asks.drop_last());
        before.answer(asks.last().from_url, asks.last().allowed, asks.last().goes_on).0
    }
}

/// What the last of some requests is answered.
pub open spec fn last_answer(s: CredView, asks: Seq<Ask>) -> OfferView {
    let before = after_asks(s, asks.drop_last());
    before.answer(asks.last().from_url, asks.last().allowed, asks.last().goes_on).1
}

/// How many of some requests are offered something.
pub open spec fn offers_made(s: CredView, asks: Seq<Ask>) -> nat
    decreases asks.len(),
{
    if asks.len() == 0 {
        0
    } else {
        let so_far = offers_made(s, asks.drop_last());
        if last_answer(s, asks) is Nothing {
            so_far
        } else {
            so_far + 1
        }
    }
}

/// How many of some requests are new attempts.
pub open spec fn attempts_in(asks: Seq<Ask>) -> nat
    decreases asks.len(),
{
    if asks.len() == 0 {
        0
    } else if asks.last().goes_on {
        attempts_in(asks.drop_last())
    } else {
        attempts_in(asks.drop_last()) + 1
    }
}

/// However often a connection asks, it is offered no more than the methods
/// that there were: each is offered at most once.
pub proof fn offers_are_bounded(s: CredView, asks: Seq<Ask>)
    requires
        s.valid(),
    ensures
        after_asks(s, asks).valid(),
        after_asks(s, asks).left() >= 0,
        offers_made(s, asks) + after_asks(s, asks).left() <= s.left(),
    decreases asks.len(),
{
    if asks.len() > 0 {
        offers_are_bounded(s, asks.drop_last());
    }
}

/// An answer forgets nothing that was tried, however many attempts were
/// counted, and one that offers something has tried something new.
pub proof fn an_answer_forgets_nothing(s: CredView, ask: Ask)
    ensures
        ({
            let (t, offer) = s.answer(ask.from_url, ask.allowed, ask.goes_on);
            &&& t.has_tried_all_of(s)
            &&& offer is Nothing || !s.has_tried_all_of(t)
            &&& s.valid() ==> t.valid()
            &&& s.valid() && !(offer is Nothing) ==> t.left() < s.left()
            &&& s.identities_only ==> !(offer is Agent)
        }),
{
}

/// What was offered stays offered.
proof fn offers_are_remembered(s: CredView, asks: Seq<Ask>)
    ensures
        after_asks(s, asks).has_tried_all_of(s),
    decreases asks.len(),
{
    if asks.len() > 0 {
        offers_are_remembered(s, asks.drop_last());
        an_answer_forgets_nothing(after_asks(s, asks.drop_last()), asks.last());
    }
}

/// No method is offered twice on a connection, and no key: after an offer,
/// however often the connection asks, what it is offered is something else,
/// and the next key to offer is one further on.
pub proof fn nothing_is_offered_twice(s: CredView, first: Ask, asks: Seq<Ask>)
    requires
        asks.len() > 0,
    ensures
        ({
            let (t, offer) = s.answer(first.from_url, first.allowed, first.goes_on);
            let later = last_answer(t, asks);
            &&& !(offer is Agent && later is Agent)
            &&& !(offer is Helper && later is Helper)
            &&& !(offer is Username && later is Username)
            &&& !(offer is Default && later is Default)
            &&& offer is Key ==> offer->private == s.keys[s.next_key as int]
            &&& offer is Key && later is Key ==> {
                let before = after_asks(t, asks.drop_last());
                &&& before.next_key > s.next_key
                &&& later->private == before.keys[before.next_key as int]
            }
        }),
{
    let (t, offer) = s.answer(first.from_url, first.allowed, first.goes_on);
    offers_are_remembered(t, asks.drop_last());
}

/// Once every method was offered, a connection is told that there is none
/// left.
pub proof fn the_end_comes(s: CredView, ask: Ask)
    requires
        s.valid(),
        s.left() == 0,
    ensures
        s.answer(ask.from_url, ask.allowed, ask.goes_on).1 is Nothing,
{
}

/// Once a connection has asked more than the number of attempts that it is
/// granted, it is offered nothing.
pub proof fn too_many_attempts_end(s: CredView, asks: Seq<Ask>)
    requires
        asks.len() > 0,
        !asks.last().goes_on,
        s.attempts + attempts_in(asks) > MAX_ATTEMPTS,
    ensures
        last_answer(s, asks) is Nothing,
{
    attempts_are_counted(s, asks.drop_last());
}

/// The state counts the attempts, as far as it can.
proof fn attempts_are_counted(s: CredView, asks: Seq<Ask>)
    ensures
        after_asks(s, asks).attempts == s.attempts + attempts_in(asks) || after_asks(
            s,
            asks,
        ).attempts >= usize::MAX,
    decreases asks.len(),
{
    if asks.len() > 0 {
        attempts_are_counted(s, asks.drop_last());
    }
}

/// With `IdentitiesOnly` the keys are those of the configuration, and the
/// agent is never offered.
pub proof fn identities_only_is_kept(
    host: ResolvedHostView,
    discovered: Seq<Seq<char>>,
    asks: Seq<Ask>,
)
    requires
        host.identities_only,
        asks.len() > 0,
    ensures
        after_asks(CredView::fresh(Some(host), discovered), asks).keys == host.identity_files,
        !(last_answer(CredView::fresh(Some(host), discovered), asks) is Agent),
    decreases asks.len(),
{
    settings_stay(CredView::fresh(Some(host), discovered), asks.drop_last());
    settings_stay(CredView::fresh(Some(host), discovered), asks);
}

/// Requests change neither the keys nor the settings of a connection.
proof fn settings_stay(s: CredView, asks: Seq<Ask>)
    ensures
        after_asks(s, asks).keys == s.keys,
        after_asks(s, asks).identities_only == s.identities_only,
        after_asks(s, asks).user == s.user,
    decreases asks.len(),
{
    if asks.len() > 0 {
        settings_stay(s, asks.drop_last());
    }
}

} // verus!
