//! How repositories are found: by a path or a name, one or several, and on
//! disk; and what errors read.
use vstd::prelude::*;
use vstd::string::*;

use crate::error::{AppError, AppErrorView};
use crate::models::RepoInfo;
use crate::paths::{file_name_of, joined_path, same_path};
use crate::resolver::{choices_text, every_target, looks_like_path, named, resolve, resolve_many,
    resolve_path, ManyStep, ResolveReply, ResolveRequest, ResolveStep, Resolving, ResolvingMany,
    Target};
use crate::scanner::{by_name, repo_paths};
use crate::text::{ascii_lowercase, joined, lowercase, text_le, texts};

verus! {

// ── One repository ───────────────────────

/// A text is a path where it is a dot, or begins with a slash, a dot or two
/// before a slash, or a tilde.
pub proof fn paths_look_like_paths(id: &str, r: bool)
    requires
        call_ensures(looks_like_path, (id,), r),
    ensures
        ({
            let s = id@;
            r <==> {
                ||| s == seq!['.']
                ||| s.len() >= 1 && s[0] == '/'
                ||| s.len() >= 1 && s[0] == '~'
                ||| s.len() >= 2 && s[0] == '.' && s[1] == '/'
                ||| s.len() >= 3 && s[0] == '.' && s[1] == '.' && s[2] == '/'
            }
        }),
{
    reveal_strlit(".");
    reveal_strlit("/");
    reveal_strlit("./");
    reveal_strlit("../");
    reveal_strlit("~");
    let s = id@;
    assert("."@ =~= seq!['.']);
    front_of(s, "/"@);
    front_of(s, "./"@);
    front_of(s, "../"@);
    front_of(s, "~"@);
    if s.len() >= 3 && s[0] == '.' && s[1] == '.' && s[2] == '/' {
        assert(forall|i: int| 0 <= i < 3 ==> s[i] == #[trigger] "../"@[i]);
    }
    if s.len() >= 2 && s[0] == '.' && s[1] == '/' {
        assert(forall|i: int| 0 <= i < 2 ==> s[i] == #[trigger] "./"@[i]);
    }
    if "../"@.is_prefix_of(s) {
        assert(s[0] == "../"@[0] && s[1] == "../"@[1] && s[2] == "../"@[2]);
    }
    if "./"@.is_prefix_of(s) {
        assert(s[0] == "./"@[0] && s[1] == "./"@[1]);
    }
    if "/"@.is_prefix_of(s) {
        assert(s[0] == "/"@[0]);
    }
    if "~"@.is_prefix_of(s) {
        assert(s[0] == "~"@[0]);
    }
}

proof fn front_of(s: Seq<char>, p: Seq<char>)
    ensures
        p.is_prefix_of(s) <==> p.len() <= s.len() && forall|i: int|
            0 <= i < p.len() ==> s[i] == #[trigger] p[i],
{
    if p.is_prefix_of(s) {
        assert forall|i: int| 0 <= i < p.len() implies s[i] == #[trigger] p[i] by {
            assert(s.subrange(0, p.len() as int)[i] == s[i]);
        }
    }
    if p.len() <= s.len() && forall|i: int| 0 <= i < p.len() ==> s[i] == #[trigger] p[i] {
        assert(s.subrange(0, p.len() as int) =~= p);
    }
}

/// A search starts with the known repositories where a name was given, and
/// with the absolute form of the path otherwise. A tilde stands for the home
/// directory.
pub proof fn a_search_starts_at_its_kind(
    id: &str,
    home: Option<&str>,
    is_path: bool,
    r: ResolveStep,
)
    requires
        call_ensures(looks_like_path, (id,), is_path),
        call_ensures(resolve, (id, home), r),
    ensures
        !is_path ==> {
            &&& r matches ResolveStep::Ask(Resolving::Cached(s), ResolveRequest::LoadCache)
            &&& s@ == id@
        },
        is_path && id@ == "~"@ && home is None ==> (r matches ResolveStep::Failed(e) && e@
            == AppErrorView::General("Cannot resolve home directory"@)),
        is_path && id@ == "~"@ ==> (home matches Some(h) ==> {
            &&& r matches ResolveStep::Ask(Resolving::Canonical(s), ResolveRequest::Canonicalize(p))
            &&& s@ == id@ && p@ == h@
        }),
        is_path && !("~/"@.is_prefix_of(id@)) && id@ != "~"@ ==> {
            &&& r matches ResolveStep::Ask(Resolving::Canonical(s), ResolveRequest::Canonicalize(p))
            &&& s@ == id@ && p@ == id@
        },
        "~/"@.is_prefix_of(id@) && home is Some ==> {
            &&& r matches ResolveStep::Ask(Resolving::Canonical(s), ResolveRequest::Canonicalize(p))
            &&& s@ == id@ && p@ == joined_path(home.unwrap()@, id@.skip(2))
        },
{
    reveal_strlit("~/");
    reveal_strlit("~");
    if "~/"@.is_prefix_of(id@) {
        front_of(id@, "~/"@);
        front_of(id@, "~"@);
        assert("~/"@[0] == "~"@[0]);
        assert(id@[0] == "~/"@[0]);
        assert(forall|i: int| 0 <= i < 1 ==> id@[i] == #[trigger] "~"@[i]);
        assert("~"@.is_prefix_of(id@));
    }
}

/// Where a path is wanted, a name is taken as a path as well.
pub proof fn a_path_is_taken_as_such(
    id: &str,
    home: Option<&str>,
    is_path: bool,
    r: ResolveStep,
    s: ResolveStep,
)
    requires
        call_ensures(looks_like_path, (id,), is_path),
        call_ensures(resolve_path, (id, home), r),
        call_ensures(resolve, (id, home), s),
    ensures
        is_path ==> r@ == s@,
        !is_path ==> {
            &&& r matches ResolveStep::Ask(Resolving::Canonical(i), ResolveRequest::Canonicalize(p))
            &&& i@ == id@ && p@ == id@
        },
{
}

/// A path is looked at for the git directory in it; it is the repository where
/// that is there, and no repository otherwise.
pub proof fn a_path_is_a_repository(s: Resolving, reply: ResolveReply, r: ResolveStep)
    requires
        s@.accepts(reply),
        call_ensures(Resolving::advance, (s, reply), r),
    ensures
        s matches Resolving::Canonical(id) ==> match reply {
            ResolveReply::Canonical(Ok(path)) => {
                &&& r matches ResolveStep::Ask(Resolving::GitDir(p), ResolveRequest::Exists(q))
                &&& p@ == path@
                &&& q@ == joined_path(path@, ".git"@)
            },
            ResolveReply::Canonical(Err(why)) => r matches ResolveStep::Failed(e) && e@
                == AppErrorView::General("Cannot resolve '"@ + id@ + "': "@ + why@),
            _ => false,
        },
        s matches Resolving::GitDir(path) ==> match reply {
            ResolveReply::Exists(true) => r matches ResolveStep::Found(p) && p@ == path@,
            ResolveReply::Exists(false) => r matches ResolveStep::Failed(e) && e@
                == AppErrorView::General("Path '"@ + path@ + "' is not a git repository"@),
            _ => false,
        },
        s matches Resolving::Unknown(id) ==> match reply {
            ResolveReply::Exists(true) => r matches ResolveStep::Found(p) && p@ == id@,
            ResolveReply::Exists(false) => r matches ResolveStep::Failed(e) && e@
                == AppErrorView::General(
                "No repo found matching '"@ + id@ + "'. Run `gitatlas scan` or pass a path."@,
            ),
            _ => false,
        },
{
}

/// A repository has the name that was asked for, whatever the case.
pub open spec fn is_called(r: RepoInfo, name: Seq<char>) -> bool {
    ascii_lowercase(r.name@) == ascii_lowercase(name)
}

/// A name means the only known repository that has it. With several it is
/// refused and all of them are told, and with none it is tried as a path.
pub proof fn a_name_means_one_repository(
    s: Resolving,
    id: String,
    repos: Vec<RepoInfo>,
    r: ResolveStep,
    i: int,
    j: int,
)
    requires
        s == Resolving::Cached(id),
        call_ensures(Resolving::advance, (s, ResolveReply::Cache(repos)), r),
    ensures
        (forall|k: int| 0 <= k < repos@.len() ==> !is_called(#[trigger] repos@[k], id@)) ==> {
            &&& r matches ResolveStep::Ask(Resolving::Unknown(n), ResolveRequest::Exists(q))
            &&& n@ == id@ && q@ == joined_path(id@, ".git"@)
        },
        0 <= i < repos@.len() && is_called(repos@[i], id@) && (forall|k: int|
            0 <= k < repos@.len() && k != i ==> !is_called(#[trigger] repos@[k], id@)) ==> (
        r matches ResolveStep::Found(p) && p@ == repos@[i].path@),
        0 <= i < j < repos@.len() && is_called(repos@[i], id@) && is_called(repos@[j], id@) ==> (
        r matches ResolveStep::Failed(e) && e@ == AppErrorView::General(
            choices_text(id@, named(repos@, id@)),
        ) && named(repos@, id@).contains(repos@[i]) && named(repos@, id@).contains(repos@[j])),
{
    let v = named(repos@, id@);
    if forall|k: int| 0 <= k < repos@.len() ==> !is_called(#[trigger] repos@[k], id@) {
        none_is_called(repos@, id@);
    }
    if 0 <= i < repos@.len() && is_called(repos@[i], id@) {
        if forall|k: int| 0 <= k < repos@.len() && k != i ==> !is_called(#[trigger] repos@[k], id@) {
            one_is_called(repos@, id@, i);
        }
    }
    if 0 <= i < j < repos@.len() && is_called(repos@[i], id@) && is_called(repos@[j], id@) {
        two_are_called(repos@, id@, i, j);
    }
}

proof fn none_is_called(repos: Seq<RepoInfo>, id: Seq<char>)
    requires
        forall|k: int| 0 <= k < repos.len() ==> !is_called(#[trigger] repos[k], id),
    ensures
        named(repos, id).len() == 0,
    decreases repos.len(),
{
    if repos.len() > 0 {
        let w = repos.drop_last();
        assert forall|k: int| 0 <= k < w.len() implies !is_called(#[trigger] w[k], id) by {
            assert(w[k] == repos[k]);
        }
        none_is_called(w, id);
        assert(!is_called(repos[repos.len() - 1], id));
    }
}

proof fn one_is_called(repos: Seq<RepoInfo>, id: Seq<char>, i: int)
    requires
        0 <= i < repos.len(),
        is_called(repos[i], id),
        forall|k: int| 0 <= k < repos.len() && k != i ==> !is_called(#[trigger] repos[k], id),
    ensures
        named(repos, id) == seq![repos[i]],
    decreases repos.len(),
{
    let w = repos.drop_last();
    assert forall|k: int| 0 <= k < w.len() && k != i implies !is_called(#[trigger] w[k], id) by {
        assert(w[k] == repos[k]);
    }
    if i == repos.len() - 1 {
        none_is_called(w, id);
        assert(named(repos, id) =~= seq![repos[i]]);
    } else {
        one_is_called(w, id, i);
        assert(!is_called(repos[repos.len() - 1], id));
    }
}

proof fn two_are_called(repos: Seq<RepoInfo>, id: Seq<char>, i: int, j: int)
    requires
        0 <= i < j < repos.len(),
        is_called(repos[i], id),
        is_called(repos[j], id),
    ensures
        named(repos, id).len() >= 2,
        named(repos, id).contains(repos[i]),
        named(repos, id).contains(repos[j]),
    decreases repos.len(),
{
    let w = repos.drop_last();
    let v = named(repos, id);
    let before = named(w, id);
    if j == repos.len() - 1 {
        this_is_called(w, id, i);
        let k = choose|k: int| 0 <= k < before.len() && before[k] == repos[i];
        assert(v[k] == repos[i]);
        assert(v[v.len() - 1] == repos[j]);
    } else {
        two_are_called(w, id, i, j);
        let k = choose|k: int| 0 <= k < before.len() && before[k] == repos[i];
        let l = choose|l: int| 0 <= l < before.len() && before[l] == repos[j];
        assert(v[k] == repos[i]);
        assert(v[l] == repos[j]);
    }
}

proof fn this_is_called(repos: Seq<RepoInfo>, id: Seq<char>, i: int)
    requires
        0 <= i < repos.len(),
        is_called(repos[i], id),
    ensures
        named(repos, id).contains(repos[i]),
    decreases repos.len(),
{
    let v = named(repos, id);
    if i == repos.len() - 1 {
        assert(v[v.len() - 1] == repos[i]);
    } else {
        let w = repos.drop_last();
        this_is_called(w, id, i);
        let before = named(w, id);
        let k = choose|k: int| 0 <= k < before.len() && before[k] == repos[i];
        assert(v[k] == repos[i]);
    }
}

/// The repositories that share a name are told one below the other, each by
/// its name and its path.
pub proof fn choices_are_told(id: Seq<char>, a: RepoInfo, b: RepoInfo)
    ensures
        choices_text(id, seq![a, b]) == "Multiple repos match '"@ + id + "':\n"@ + ("  "@ + a.name@
            + " ("@ + a.path@ + ")"@ + "\n"@ + ("  "@ + b.name@ + " ("@ + b.path@ + ")"@))
            + "\nSpecify the full path instead."@,
{
    let v = seq![a, b].map_values(|r: RepoInfo| crate::resolver::choice_line(r));
    assert(v =~= seq![crate::resolver::choice_line(a), crate::resolver::choice_line(b)]);
    assert(v.drop_last() =~= seq![crate::resolver::choice_line(a)]);
    assert(joined(v.drop_last(), "\n"@) == crate::resolver::choice_line(a));
    assert(joined(v, "\n"@) == crate::resolver::choice_line(a) + "\n"@
        + crate::resolver::choice_line(b));
}

/// A search takes the reply that it waits for: an absolute path, whether one
/// exists, or the known repositories.
pub proof fn a_search_takes_its_reply(
    s: Resolving,
    many: ResolvingMany,
    reply: ResolveReply,
    a: bool,
    b: bool,
)
    requires
        call_ensures(Resolving::accepts, (&s, &reply), a),
        call_ensures(ResolvingMany::accepts, (&many, &reply), b),
    ensures
        a == match s {
            Resolving::Canonical(_) => reply is Canonical,
            Resolving::GitDir(_) => reply is Exists,
            Resolving::Cached(_) => reply is Cache,
            Resolving::Unknown(_) => reply is Exists,
        },
        many is All ==> b == (reply is Cache),
        many matches ResolvingMany::Each { ids, at, found, search } ==> (search == s ==> b == (a
            && at < ids@.len())),
{
    if let ResolvingMany::Each { ids, at, found, search } = many {
        assert(texts(ids@).len() == ids@.len());
    }
}

// ── Several repositories ─────────────────

/// A search for all starts with the known repositories, one for nothing is
/// refused, and any other starts with the first identifier.
pub proof fn a_search_for_many_starts(
    ids: Vec<String>,
    all: bool,
    home: Option<&str>,
    r: ManyStep,
    first: &str,
    one: ResolveStep,
)
    requires
        call_ensures(resolve_many, (ids, all, home), r),
        ids@.len() > 0 ==> first@ == ids@[0]@,
        call_ensures(resolve, (first, home), one),
    ensures
        all ==> (r matches ManyStep::Ask(ResolvingMany::All, ResolveRequest::LoadCache)),
        !all && ids@.len() == 0 ==> (r matches ManyStep::Failed(e) && e@ == AppErrorView::General(
            "Specify one or more repos, or pass --all."@,
        )),
        !all && ids@.len() > 0 ==> match one {
            ResolveStep::Ask(search, request) => {
                &&& r matches ManyStep::Ask(
                    ResolvingMany::Each { ids: i, at, found, search: s },
                    q,
                )
                &&& texts(i@) == texts(ids@) && at == 0 && found@.len() == 0
                &&& s@ == search@ && q@ == request@
            },
            ResolveStep::Failed(e) => r matches ManyStep::Failed(f) && f@ == e@,
            ResolveStep::Found(_) => true,
        },
{
    assert(texts(ids@).len() == ids@.len());
    if ids@.len() > 0 {
        assert(texts(ids@)[0] == ids@[0]@);
    }
    if let ManyStep::Ask(ResolvingMany::Each { ids: i, at, found, search: s }, q) = r {
        assert(crate::resolver::targets_view(found@).len() == found@.len());
    }
}

/// All known repositories are taken, each by its name and its path, in order;
/// without any there is nothing to work on.
pub proof fn all_are_taken(
    repos: Vec<RepoInfo>,
    home: Option<&str>,
    r: ManyStep,
    every: Vec<Target>,
)
    requires
        call_ensures(
            ResolvingMany::advance,
            (ResolvingMany::All, ResolveReply::Cache(repos), home),
            r,
        ),
        call_ensures(every_target, (&repos,), every),
    ensures
        every@.len() == repos@.len(),
        forall|i: int|
            0 <= i < repos@.len() ==> (#[trigger] every@[i]).name@ == repos@[i].name@
                && every@[i].path@ == repos@[i].path@,
        repos@.len() == 0 ==> (r matches ManyStep::Failed(e) && e@ == AppErrorView::General(
            "Cache is empty. Run `gitatlas scan` first."@,
        )),
        repos@.len() > 0 ==> {
            &&& r matches ManyStep::Found(v)
            &&& v@.len() == repos@.len()
            &&& forall|i: int|
                0 <= i < repos@.len() ==> (#[trigger] v@[i]).name@ == repos@[i].name@ && v@[i].path@
                    == repos@[i].path@
        },
{
    let t = crate::resolver::targets_view(every@);
    assert(t.len() == every@.len());
    assert forall|i: int| 0 <= i < repos@.len() implies (#[trigger] every@[i]).name@
        == repos@[i].name@ && every@[i].path@ == repos@[i].path@ by {
        assert(t[i] == every@[i]@);
    }
    if let ManyStep::Found(v) = r {
        let u = crate::resolver::targets_view(v@);
        assert(u.len() == v@.len());
        assert forall|i: int| 0 <= i < v@.len() && v@.len() == repos@.len() implies (
        #[trigger] v@[i]).name@ == repos@[i].name@ && v@[i].path@ == repos@[i].path@ by {
            assert(u[i] == v@[i]@);
        }
    }
}

/// What is found for an identifier is kept behind the others, called by the
/// last part of its path, and the search goes on with the next identifier; at
/// the end all are given back.
pub proof fn each_is_kept_when_found(
    ids: Vec<String>,
    at: usize,
    found: Vec<Target>,
    search: Resolving,
    reply: ResolveReply,
    home: Option<&str>,
    one: ResolveStep,
    r: ManyStep,
)
    requires
        at < ids@.len(),
        search@.accepts(reply),
        call_ensures(Resolving::advance, (search, reply), one),
        call_ensures(
            ResolvingMany::advance,
            (ResolvingMany::Each { ids, at, found, search }, reply, home),
            r,
        ),
    ensures
        one matches ResolveStep::Found(path) ==> {
            let name = match file_name_of(path@) {
                Some(n) => n,
                None => ids@[at as int]@,
            };
            &&& at + 1 == ids@.len() ==> {
                &&& r matches ManyStep::Found(v)
                &&& v@.len() == found@.len() + 1
                &&& v@.last().name@ == name && v@.last().path@ == path@
                &&& forall|i: int|
                    0 <= i < found@.len() ==> (#[trigger] v@[i]).name@ == found@[i].name@
                        && v@[i].path@ == found@[i].path@
            }
            &&& at + 1 < ids@.len() ==> !(r is Found)
            &&& r matches ManyStep::Ask(ResolvingMany::Each { ids: i, at: k, found: v, search: s }, q)
                ==> {
                &&& k == at + 1 && texts(i@) == texts(ids@)
                &&& v@.len() == found@.len() + 1
                &&& v@.last().name@ == name && v@.last().path@ == path@
            }
        },
        one matches ResolveStep::Failed(e) ==> (r matches ManyStep::Failed(f) && f@ == e@),
        one matches ResolveStep::Ask(s, q) ==> {
            &&& r matches ManyStep::Ask(
                ResolvingMany::Each { ids: i, at: k, found: v, search: t },
                p,
            )
            &&& k == at && texts(i@) == texts(ids@) && t@ == s@ && p@ == q@
            &&& v@.len() == found@.len()
        },
{
    let b = crate::resolver::targets_view(found@);
    assert(b.len() == found@.len());
    assert(texts(ids@).len() == ids@.len());
    assert(texts(ids@)[at as int] == ids@[at as int]@);
    if let ManyStep::Found(v) = r {
        let u = crate::resolver::targets_view(v@);
        assert(u.len() == v@.len());
        if v@.len() > 0 {
            assert(u.last() == v@.last()@);
        }
        if u.len() == b.len() + 1 {
            assert forall|i: int| 0 <= i < found@.len() implies u[i] == (#[trigger] v@[i])@ by {}
            assert forall|i: int| 0 <= i < found@.len() implies b[i] == (
            #[trigger] found@[i])@ by {}
        }
    }
    if let ManyStep::Ask(ResolvingMany::Each { ids: i, at: k, found: v, search: s }, q) = r {
        let u = crate::resolver::targets_view(v@);
        assert(u.len() == v@.len());
        if v@.len() > 0 {
            assert(u.last() == v@.last()@);
        }
    }
    if at + 1 < ids@.len() {
        not_found_at_once(texts(ids@)[at + 1], crate::git::ssh_config::opt_str_view(home));
    }
}

proof fn not_found_at_once(id: Seq<char>, home: Option<Seq<char>>)
    ensures
        !(crate::resolver::search_for(id, home) is Found),
{
}

// ── On disk ──────────────────────────────

/// What a scan finds is listed in order, and no path twice.
pub proof fn found_paths_are_listed_once(found: Vec<String>, r: Vec<String>)
    requires
        call_ensures(repo_paths, (found,), r),
    ensures
        forall|i: int, j: int|
            0 <= i < j < r@.len() ==> !same_path((#[trigger] r@[i])@, (#[trigger] r@[j])@),
        forall|k: int|
            0 <= k < found@.len() ==> exists|i: int|
                0 <= i < r@.len() && same_path((#[trigger] r@[i])@, (#[trigger] found@[k])@),
        forall|i: int| 0 <= i < r@.len() ==> texts(found@).contains((#[trigger] r@[i])@),
        forall|i: int, j: int|
            0 <= i < j < r@.len() ==> crate::paths::path_le(
                (#[trigger] r@[i])@,
                (#[trigger] r@[j])@,
            ),
{
    let f = texts(found@);
    let v = texts(r@);
    let sorted = choose|sorted: Seq<Seq<char>>| #[trigger]
        crate::order::stably_sorted(sorted, f, crate::scanner::path_order()) && v
            == crate::scanner::without_repeats(sorted);
    assert(v.len() == r@.len());
    crate::scanner::no_path_twice(f, sorted);
    let le = crate::scanner::path_order();
    assert forall|i: int, j: int| 0 <= i < j < r@.len() implies !same_path(
        (#[trigger] r@[i])@,
        (#[trigger] r@[j])@,
    ) && crate::paths::path_le(r@[i]@, r@[j]@) by {
        assert(v[i] == r@[i]@ && v[j] == r@[j]@);
        assert(le(v[i], v[j]));
    }
    assert forall|i: int| 0 <= i < r@.len() implies texts(found@).contains(
        (#[trigger] r@[i])@,
    ) by {
        assert(v[i] == r@[i]@);
        crate::scanner::no_path_is_lost(f, sorted);
    }
    assert forall|k: int| 0 <= k < found@.len() implies exists|i: int|
        0 <= i < r@.len() && same_path((#[trigger] r@[i])@, (#[trigger] found@[k])@) by {
        assert(f[k] == found@[k]@);
        crate::scanner::no_path_is_lost(f, sorted);
        assert(crate::scanner::holds_path(v, f[k]));
        let i = choose|i: int| 0 <= i < v.len() && same_path(#[trigger] v[i], f[k]);
        assert(v[i] == r@[i]@);
    }
}

/// Repositories are listed by name, whatever the case, and none is lost.
pub proof fn repositories_are_listed_by_name(repos: Vec<RepoInfo>, r: Vec<RepoInfo>)
    requires
        call_ensures(by_name, (repos,), r),
    ensures
        r@.len() == repos@.len(),
        forall|i: int, j: int|
            0 <= i < j < r@.len() ==> text_le(
                lowercase((#[trigger] r@[i]).name@),
                lowercase((#[trigger] r@[j]).name@),
            ),
        forall|k: int| 0 <= k < repos@.len() ==> r@.contains(#[trigger] repos@[k]),
        forall|k: int| 0 <= k < r@.len() ==> repos@.contains(#[trigger] r@[k]),
{
    let f = crate::scanner::name_key();
    let a = r@.map_values(f);
    let b = repos@.map_values(f);
    let le = crate::scanner::key_order();
    a.to_multiset_ensures();
    b.to_multiset_ensures();
    assert(a.len() == r@.len() && b.len() == repos@.len());
    assert forall|i: int, j: int| 0 <= i < j < r@.len() implies text_le(
        lowercase((#[trigger] r@[i]).name@),
        lowercase((#[trigger] r@[j]).name@),
    ) by {
        assert(a[i] == f(r@[i]) && a[j] == f(r@[j]));
        assert(le(a[i], a[j]));
    }
    assert forall|k: int| 0 <= k < repos@.len() implies r@.contains(#[trigger] repos@[k]) by {
        assert(b[k] == f(repos@[k]));
        assert(b.contains(b[k]));
        assert(b.to_multiset().count(b[k]) > 0);
        assert(a.to_multiset().count(b[k]) > 0);
        assert(a.contains(b[k]));
        let i = choose|i: int| 0 <= i < a.len() && a[i] == b[k];
        assert(a[i] == f(r@[i]));
        assert(r@[i] == repos@[k]);
    }
    assert forall|k: int| 0 <= k < r@.len() implies repos@.contains(#[trigger] r@[k]) by {
        assert(a[k] == f(r@[k]));
        assert(a.contains(a[k]));
        assert(a.to_multiset().count(a[k]) > 0);
        assert(b.to_multiset().count(a[k]) > 0);
        assert(b.contains(a[k]));
        let i = choose|i: int| 0 <= i < b.len() && b[i] == a[k];
        assert(b[i] == f(repos@[i]));
        assert(repos@[i] == r@[k]);
    }
}

// ── Errors ───────────────────────────────

/// An error says where it came from and what it was; a command that fails with
/// one from outside adds the cause.
pub proof fn errors_say_what_they_are(e: AppError, text: String, report: String)
    requires
        call_ensures(AppError::text, (&e,), text),
        call_ensures(AppError::report, (&e,), report),
    ensures
        match e {
            AppError::Git(s) => text@ == "Git error: "@ + s@ && report@ == text@ + ": "@ + s@,
            AppError::Io(s) => text@ == "IO error: "@ + s@ && report@ == text@ + ": "@ + s@,
            AppError::General(s) => text@ == s@ && report@ == s@,
        },
{
}

} // verus!
