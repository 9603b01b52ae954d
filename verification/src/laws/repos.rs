//! What is read from single repositories and done to them, and what is known
//! of all of them.
use vstd::prelude::*;
use vstd::string::*;

use crate::cache;
use crate::cache::{cache_file, config_dir, config_file, data_dir, default_root,
    effective_scan_roots, find_place, place_is_first, Config};
use crate::error::{AppError, AppErrorView, AppResult};
use crate::git::detail::{all_labels, build_ref_map, change_shown, checkout_target, commit_id,
    commit_with_date, file_in_repo, get_branches, get_commit_diff, get_commit_files, get_commit_log,
    get_file_changes, get_file_diff, get_file_history, get_git_profile, get_pr_url, get_readme,
    get_workdir_diff, index_status_to_file_status, labels_of, labels_on, merge_branch, merge_result,
    origin_url, patch_text, readme_error, readme_names, remote_info, squash_commits, squash_step,
    stage_files, stash_message, touches_file, unstaging, workdir_status_to_file_status, CommitDelta,
    DeltaKind, FileHistory, HeadTarget, IndexEdit, MergePlan, PatchLine, RawBranch, RawCommit,
    RawTag, RefEntry, SquashPhase, SquashReply, SquashRequest, SquashStep, SquashTask, StatusEntry,
    StatusFlags, Unstaging};
use crate::git::status::{determine_health, get_repo_info, upstream_ref, RepoProbe};
use crate::models::{health_name, search_hits, BranchInfo, BranchView, CommitFileChange, CommitInfo,
    FileChange, FileStatus, GitProfile, RefKind, RefLabel, RemoteInfo, RepoHealth, RepoInfo};
use crate::text::{has_text, text_in, text_le, trimmed};

verus! {

// ── State ────────────────────────────────

/// A repository is clean where nothing here waits to be sent or committed; it
/// has diverged where something does and there are commits to fetch as well,
/// and is dirty otherwise.
pub proof fn health_tells_what_waits(ahead: u32, behind: u32, dirty_files: u32, r: RepoHealth)
    requires
        call_ensures(determine_health, (ahead, behind, dirty_files), r),
    ensures
        r == RepoHealth::Clean <==> ahead == 0 && dirty_files == 0,
        r == RepoHealth::Diverged <==> behind > 0 && (ahead > 0 || dirty_files > 0),
        r == RepoHealth::Dirty <==> behind == 0 && (ahead > 0 || dirty_files > 0),
{
}

/// HEAD is compared with the branch on origin of the same name, where it leads
/// to a commit and is on a branch.
pub proof fn head_is_compared_with_origin(has_target: bool, head: Option<String>, r: Option<String>)
    requires
        call_ensures(upstream_ref, (has_target, &head), r),
    ensures
        r is Some <==> has_target && head is Some,
        has_target ==> (head matches Some(b) ==> r.unwrap()@ == "refs/remotes/origin/"@ + b@),
{
}

/// The state of a repository is what was read of it, each count in its place;
/// one that could not be opened is in error and has no counts.
pub proof fn the_state_is_what_was_read(
    path: &str,
    now: String,
    probe: Option<RepoProbe>,
    r: RepoInfo,
)
    requires
        call_ensures(get_repo_info, (path, now, probe), r),
    ensures
        r.path@ == path@,
        r.last_checked == now,
        crate::paths::file_name_of(path@) matches Some(n) ==> r.name@ == n,
        crate::paths::file_name_of(path@) is None ==> r.name@ == "unknown"@,
        probe is None ==> {
            &&& r.health == RepoHealth::Error
            &&& r.branch@ == "unknown"@
            &&& r.ahead == 0 && r.behind == 0 && r.dirty_files == 0 && r.stash_count == 0
            &&& r.remote_url is None
        },
        probe matches Some(p) ==> {
            &&& p.head_name matches Some(b) ==> r.branch@ == b@
            &&& p.head_name is None ==> r.branch@ == "HEAD (detached)"@
            &&& p.ahead_behind matches Some(c) ==> (c.0 <= u32::MAX ==> r.ahead == c.0) && (c.1
                <= u32::MAX ==> r.behind == c.1)
            &&& p.ahead_behind is None ==> r.ahead == 0 && r.behind == 0
            &&& p.dirty_files matches Some(n) ==> (n <= u32::MAX ==> r.dirty_files == n)
            &&& p.dirty_files is None ==> r.dirty_files == 0
            &&& r.stash_count == p.stash_count
            &&& r.remote_url == p.origin_url
            &&& r.health != RepoHealth::Error
            &&& r.health == RepoHealth::Clean <==> r.ahead == 0 && r.dirty_files == 0
            &&& r.health == RepoHealth::Diverged <==> r.behind > 0 && (r.ahead > 0 || r.dirty_files
                > 0)
        },
{
}

/// A health is named by its own word, and read from it whatever the case;
/// `changes` is another word for dirty.
pub proof fn healths_have_names(h: RepoHealth, r: &'static str, s: &str, p: Option<RepoHealth>)
    requires
        call_ensures(health_name, (h,), r),
        call_ensures(RepoHealth::parse, (s,), p),
    ensures
        r@ == match h {
            RepoHealth::Clean => "clean"@,
            RepoHealth::Dirty => "dirty"@,
            RepoHealth::Diverged => "diverged"@,
            RepoHealth::Error => "error"@,
        },
        s@ == "clean"@ ==> p == Some(RepoHealth::Clean),
        s@ == "dirty"@ || s@ == "changes"@ ==> p == Some(RepoHealth::Dirty),
        s@ == "diverged"@ ==> p == Some(RepoHealth::Diverged),
        s@ == "error"@ ==> p == Some(RepoHealth::Error),
        p is Some ==> ({
            let l = crate::text::ascii_lowercase(s@);
            l == "clean"@ || l == "dirty"@ || l == "changes"@ || l == "diverged"@ || l == "error"@
        }),
{
    crate::models::health_name_reads_back(RepoHealth::Clean);
    crate::models::health_name_reads_back(RepoHealth::Dirty);
    crate::models::health_name_reads_back(RepoHealth::Diverged);
    crate::models::health_name_reads_back(RepoHealth::Error);
    reveal_strlit("changes");
    reveal_strlit("clean");
    assert(crate::text::ascii_lowercase("changes"@) =~= "changes"@);
    assert("changes"@.len() != "clean"@.len());
}

/// A search text is found in the name, the branch or the path, and nowhere
/// else.
pub proof fn searches_look_everywhere(
    needle: &str,
    name: &str,
    branch: &str,
    path: &str,
    r: bool,
)
    requires
        call_ensures(search_hits, (needle, name, branch, path), r),
    ensures
        r <==> has_text(name@, needle@) || has_text(branch@, needle@) || has_text(path@, needle@),
{
}

/// Each status of a file has its own letter.
pub proof fn statuses_have_letters(s: FileStatus, r: &'static str)
    requires
        call_ensures(FileStatus::short, (&s,), r),
    ensures
        r@ == match s {
            FileStatus::Added => "A"@,
            FileStatus::Modified => "M"@,
            FileStatus::Deleted => "D"@,
            FileStatus::Renamed => "R"@,
            FileStatus::Untracked => "?"@,
            FileStatus::Conflicted => "U"@,
        },
{
}

// ── Commits ──────────────────────────────

/// A commit is named by up to forty hexadecimal digits, which are the first of
/// its id; nothing else names one.
pub proof fn commits_are_named_by_digits(s: &str, r: AppResult<String>)
    requires
        call_ensures(commit_id, (s,), r),
    ensures
        r is Ok <==> 1 <= s@.len() <= 40 && forall|i: int|
            0 <= i < s@.len() ==> ('0' <= #[trigger] s@[i] <= '9' || 'a' <= s@[i] <= 'f' || 'A'
                <= s@[i] <= 'F'),
        r matches Ok(id) ==> {
            &&& id@.len() == 40
            &&& forall|i: int|
                0 <= i < s@.len() && !('A' <= s@[i] <= 'F') ==> #[trigger] id@[i] == s@[i]
            &&& forall|i: int|
                0 <= i < s@.len() && 'A' <= s@[i] <= 'F' ==> #[trigger] id@[i] as int == s@[i] as int
                    + 32
            &&& forall|i: int| s@.len() <= i < 40 ==> #[trigger] id@[i] == '0'
        },
        r matches Err(e) ==> e is Git,
        s@.len() == 0 ==> (r matches Err(e) && e@ == AppErrorView::Git(
            "unable to parse OID - "@ + "too short"@ + "; class=Invalid (3)"@,
        )),
        vstd::utf8::encode_utf8(s@).len() > 40 && s@.len() > 40 ==> (r matches Err(e) && e@
            == AppErrorView::Git(
            "unable to parse OID - "@ + "too long"@ + "; class=Invalid (3)"@,
        )),
        r matches Err(e) ==> (s@.len() > 0 && vstd::utf8::encode_utf8(s@).len() <= 40 ==> e@
            == AppErrorView::Git(
            "unable to parse OID - "@ + "contains invalid characters"@ + "; class=Invalid (3)"@,
        )),
{
    if let Err(e) = r {
        assert(e@ is Git);
    }
}

/// What is shown of a commit is what was read of it: its id, and the first
/// seven digits of it and of the ids of its parents; its message, trimmed; its
/// author; its date; and the labels on it.
pub proof fn a_commit_is_shown_as_it_is(
    raw: RawCommit,
    date: Option<String>,
    entries: Vec<RefEntry>,
    r: CommitInfo,
)
    requires
        call_ensures(commit_with_date, (raw, date, &entries), r),
    ensures
        r.oid@ == raw.oid@,
        raw.oid@.len() >= 7 ==> r.short_oid@ == raw.oid@.take(7),
        raw.oid@.len() < 7 ==> r.short_oid@ == raw.oid@,
        raw.message matches Some(m) ==> r.message@ == trimmed(m@),
        raw.message is None ==> r.message@.len() == 0,
        raw.author matches Some(a) ==> r.author@ == a@,
        raw.author is None ==> r.author@ == "Unknown"@,
        raw.email matches Some(a) ==> r.author_email@ == a@,
        raw.email is None ==> r.author_email@.len() == 0,
        date matches Some(d) ==> r.date@ == d@,
        date is None ==> r.date@.len() == 0,
        r.parents@.len() == raw.parents@.len(),
        forall|i: int|
            0 <= i < raw.parents@.len() && raw.parents@[i]@.len() >= 7 ==> (
            #[trigger] r.parents@[i])@ == raw.parents@[i]@.take(7),
        forall|i: int|
            0 <= i < r.refs@.len() ==> exists|k: int|
                {
                    &&& 0 <= k < entries@.len()
                    &&& (#[trigger] entries@[k]).oid@ == raw.oid@
                    &&& entries@[k].label.name@ == (#[trigger] r.refs@[i]).name@
                    &&& entries@[k].label.kind == r.refs@[i].kind
                },
{
    reveal_strlit("");
    let v = r@;
    assert(crate::text::texts(r.parents@).len() == raw.parents@.len());
    assert forall|i: int|
        0 <= i < raw.parents@.len() && raw.parents@[i]@.len() >= 7 implies (
    #[trigger] r.parents@[i])@ == raw.parents@[i]@.take(7) by {
        assert(v.parents[i] == r.parents@[i]@);
        assert(crate::text::texts(raw.parents@)[i] == raw.parents@[i]@);
        assert(raw.parents@[i]@.len() == 7 ==> raw.parents@[i]@.take(7) =~= raw.parents@[i]@);
    }
    assert(raw.oid@.len() == 7 ==> raw.oid@.take(7) =~= raw.oid@);
    assert(trimmed(""@) =~= ""@);
    let all = crate::git::detail::entries_view(entries@);
    assert forall|i: int| 0 <= i < r.refs@.len() implies exists|k: int|
        {
            &&& 0 <= k < entries@.len()
            &&& (#[trigger] entries@[k]).oid@ == raw.oid@
            &&& entries@[k].label.name@ == (#[trigger] r.refs@[i]).name@
            &&& entries@[k].label.kind == r.refs@[i].kind
        } by {
        assert(v.refs[i] == r.refs@[i]@);
        let k = a_label_comes_from_an_entry(all, raw.oid@, i);
        assert(all[k] == entries@[k]@);
    }
}

proof fn a_label_comes_from_an_entry(
    all: Seq<(Seq<char>, (Seq<char>, RefKind))>,
    oid: Seq<char>,
    i: int,
) -> (k: int)
    requires
        0 <= i < labels_on(all, oid).len(),
    ensures
        0 <= k < all.len(),
        all[k].0 == oid,
        all[k].1 == labels_on(all, oid)[i],
    decreases all.len(),
{
    let before = labels_on(all.drop_last(), oid);
    if i < before.len() {
        a_label_comes_from_an_entry(all.drop_last(), oid, i)
    } else {
        all.len() - 1
    }
}

/// The labels on a commit are those of the references that lead to it, in the
/// order in which they were found: one more reference adds its label where it
/// leads there, and nothing otherwise.
pub proof fn labels_stand_on_their_commit(
    entries: Seq<(Seq<char>, (Seq<char>, RefKind))>,
    more: (Seq<char>, (Seq<char>, RefKind)),
    oid: Seq<char>,
)
    ensures
        labels_on(seq![], oid).len() == 0,
        labels_on(entries.push(more), oid) == if more.0 == oid {
            labels_on(entries, oid).push(more.1)
        } else {
            labels_on(entries, oid)
        },
{
    assert(entries.push(more).drop_last() =~= entries);
}

/// A branch that leads to a commit labels it: as the head where HEAD is on
/// that commit and names that branch, and else as a remote or local branch.
/// One that leads nowhere, or has no name, labels nothing.
pub proof fn branches_label_their_commits(
    head_oid: Option<Seq<char>>,
    head_name: Option<Seq<char>>,
    branches: Seq<RawBranch>,
    b: RawBranch,
)
    ensures
        ({
            let before = all_labels(head_oid, head_name, branches, seq![]);
            let after = all_labels(head_oid, head_name, branches.push(b), seq![]);
            match (b.name, b.target) {
                (Some(n), Some(oid)) => {
                    &&& after.len() == before.len() + 1
                    &&& after.drop_last() == before
                    &&& after.last().0 == oid@
                    &&& after.last().1.0 == n@
                    &&& after.last().1.1 == if head_oid == Some(oid@) && head_name == Some(n@) {
                        RefKind::Head
                    } else if b.remote {
                        RefKind::Remote
                    } else {
                        RefKind::Local
                    }
                },
                _ => after == before,
            }
        }),
{
    reveal(Seq::filter_map);
    assert(branches.push(b).drop_last() =~= branches);
    let f = |b: RawBranch| crate::git::detail::branch_label(b, head_oid, head_name);
    let none = Seq::<RawTag>::empty();
    assert(all_labels(head_oid, head_name, branches, none) =~= branches.filter_map(f));
    assert(all_labels(head_oid, head_name, branches.push(b), none) =~= branches.push(b).filter_map(
        f,
    ));
    assert(branches.push(b).filter_map(f) =~= branches.filter_map(f) + match f(b) {
        Some(c) => seq![c],
        None => seq![],
    });
    assert(all_labels(head_oid, head_name, branches.push(b), none).drop_last()
        =~= branches.push(b).filter_map(f).drop_last());
    if b.name is Some && b.target is Some {
        assert(branches.push(b).filter_map(f).drop_last() =~= branches.filter_map(f));
    }
}

/// A tag that leads to a commit labels it as a tag. The tags come after the
/// branches.
pub proof fn tags_label_their_commits(
    head_oid: Option<Seq<char>>,
    head_name: Option<Seq<char>>,
    branches: Seq<RawBranch>,
    tags: Seq<RawTag>,
    t: RawTag,
)
    ensures
        ({
            let before = all_labels(head_oid, head_name, branches, tags);
            let after = all_labels(head_oid, head_name, branches, tags.push(t));
            match t.target {
                Some(oid) => after == before.push((oid@, (t.name@, RefKind::Tag))),
                None => after == before,
            }
        }),
        all_labels(head_oid, head_name, seq![], seq![]).len() == 0,
{
    reveal(Seq::filter_map);
    assert(tags.push(t).drop_last() =~= tags);
    let f = |b: RawBranch| crate::git::detail::branch_label(b, head_oid, head_name);
    let g = |t: RawTag| crate::git::detail::tag_label(t);
    assert(tags.push(t).filter_map(g) =~= tags.filter_map(g) + match g(t) {
        Some(c) => seq![c],
        None => seq![],
    });
    let before = branches.filter_map(f) + tags.filter_map(g);
    assert(all_labels(head_oid, head_name, branches, tags) =~= before);
    let after = branches.filter_map(f) + tags.push(t).filter_map(g);
    assert(all_labels(head_oid, head_name, branches, tags.push(t)) =~= after);
    if let Some(oid) = t.target {
        assert(after =~= before.push((oid@, (t.name@, RefKind::Tag))));
    } else {
        assert(after =~= before);
    }
}

/// The labels of a repository are those of its branches and tags.
pub proof fn labels_are_those_of_references(
    head_oid: Option<&str>,
    head_name: Option<&str>,
    branches: Vec<RawBranch>,
    tags: Vec<RawTag>,
    entries: Vec<RefEntry>,
    oid: &str,
    r: Vec<RefLabel>,
)
    requires
        call_ensures(build_ref_map, (head_oid, head_name, &branches, &tags), entries),
        call_ensures(labels_of, (&entries, oid), r),
    ensures
        crate::models::labels_view(r@) == labels_on(
            all_labels(
                match head_oid {
                    Some(h) => Some(h@),
                    None => None,
                },
                match head_name {
                    Some(h) => Some(h@),
                    None => None,
                },
                branches@,
                tags@,
            ),
            oid@,
        ),
{
}

/// A log shows the first commits of the walk, as many as were asked for, each
/// as itself and in order.
pub proof fn a_log_shows_the_latest(
    walked: Vec<RawCommit>,
    entries: Vec<RefEntry>,
    count: usize,
    r: Vec<CommitInfo>,
)
    requires
        call_ensures(get_commit_log, (walked, &entries, count), r),
    ensures
        walked@.len() <= count ==> r@.len() == walked@.len(),
        walked@.len() > count ==> r@.len() == count,
        forall|i: int| 0 <= i < r@.len() ==> (#[trigger] r@[i]).oid@ == walked@[i].oid@,
        forall|i: int|
            0 <= i < r@.len() ==> (walked@[i].message matches Some(m) ==> (
            #[trigger] r@[i]).message@ == trimmed(m@)),
{
    let v = crate::models::commits_view(r@);
    assert(v.len() == r@.len());
    assert forall|i: int| 0 <= i < r@.len() implies (#[trigger] r@[i]).oid@ == walked@[i].oid@ && (
    walked@[i].message matches Some(m) ==> r@[i].message@ == trimmed(m@)) by {
        assert(v[i] == r@[i]@);
    }
}

/// A commit touches a file where every parent holds something else in its
/// place; without parents, where it holds the file.
pub proof fn touching_differs_from_all_parents(
    blob: Option<String>,
    parents: Vec<Option<String>>,
    r: bool,
)
    requires
        call_ensures(touches_file, (&blob, &parents), r),
    ensures
        parents@.len() == 0 ==> r == (blob is Some),
        parents@.len() > 0 ==> (r <==> forall|i: int|
            0 <= i < parents@.len() ==> crate::text::opt_view(#[trigger] parents@[i])
                != crate::text::opt_view(blob)),
{
    let held = crate::git::detail::blobs_view(parents@);
    let b = crate::text::opt_view(blob);
    assert forall|i: int| 0 <= i < parents@.len() implies #[trigger] held[i]
        == crate::text::opt_view(parents@[i]) by {}
    if parents@.len() > 0 {
        if held.contains(b) {
            let i = choose|i: int| 0 <= i < held.len() && held[i] == b;
            assert(crate::text::opt_view(parents@[i]) == b);
        } else {
            assert forall|i: int| 0 <= i < parents@.len() implies crate::text::opt_view(
                #[trigger] parents@[i],
            ) != b by {
                assert(held[i] != b);
            }
        }
    }
}

/// A history starts empty, and a visit adds the commit at its end where it
/// touches the file, and nothing otherwise; it is over once there are as many
/// as were asked for.
pub proof fn a_visit_adds_what_touches(
    h: &mut FileHistory,
    raw: RawCommit,
    blob: Option<String>,
    parents: Vec<Option<String>>,
    entries: Vec<RefEntry>,
    count: usize,
    fresh: FileHistory,
    touched: bool,
)
    requires
        call_ensures(FileHistory::visit, (h, raw, blob, &parents, &entries), ()),
        call_ensures(touches_file, (&blob, &parents), touched),
        call_ensures(get_file_history, (count,), fresh),
    ensures
        fresh.commits@.len() == 0 && fresh.count == count && (fresh.over <==> count == 0),
        final(h).count == old(h).count,
        !touched ==> final(h)@ == old(h)@,
        touched ==> {
            &&& final(h).commits@.len() == old(h).commits@.len() + 1
            &&& final(h).commits@.last().oid@ == raw.oid@
            &&& final(h).over <==> final(h).commits@.len() >= old(h).count
            &&& forall|i: int|
                0 <= i < old(h).commits@.len() ==> (#[trigger] final(h).commits@[i])@
                    == old(h).commits@[i]@
        },
{
    assert(fresh@.commits.len() == fresh.commits@.len());
    let before = old(h)@.commits;
    let after = final(h)@.commits;
    assert(after.len() == final(h).commits@.len());
    assert(before.len() == old(h).commits@.len());
    if touched {
        assert(after.last() == final(h).commits@.last()@);
        assert forall|i: int| 0 <= i < old(h).commits@.len() implies (
        #[trigger] final(h).commits@[i])@ == old(h).commits@[i]@ by {
            assert(after[i] == before[i]);
        }
    }
}

// ── Files ────────────────────────────────

/// The status of a file on one side: new, modified, deleted or renamed there,
/// in that order of weight, and else whether it is in conflict.
pub open spec fn side_status(s: StatusFlags, staged: bool) -> Option<FileStatus> {
    let (new, modified, deleted, renamed) = if staged {
        (s.index_new, s.index_modified, s.index_deleted, s.index_renamed)
    } else {
        (s.wt_new, s.wt_modified, s.wt_deleted, s.wt_renamed)
    };
    if new {
        Some(
            if staged {
                FileStatus::Added
            } else {
                FileStatus::Untracked
            },
        )
    } else if modified {
        Some(FileStatus::Modified)
    } else if deleted {
        Some(FileStatus::Deleted)
    } else if renamed {
        Some(FileStatus::Renamed)
    } else if s.conflicted {
        Some(FileStatus::Conflicted)
    } else {
        None
    }
}

/// What changed in the index is told by the flags of the index, and what
/// changed in the working tree by those of the working tree.
pub proof fn statuses_follow_their_side(
    s: StatusFlags,
    index: Option<FileStatus>,
    workdir: Option<FileStatus>,
)
    requires
        call_ensures(index_status_to_file_status, (s,), index),
        call_ensures(workdir_status_to_file_status, (s,), workdir),
    ensures
        index == side_status(s, true),
        workdir == side_status(s, false),
{
}

/// The changes on one side, file by file.
pub open spec fn side_changes(v: Seq<StatusEntry>, staged: bool) -> Seq<(
    Seq<char>,
    FileStatus,
    bool,
)>
    decreases v.len(),
{
    if v.len() == 0 {
        seq![]
    } else {
        let before = side_changes(v.drop_last(), staged);
        match side_status(v.last().flags, staged) {
            Some(status) => before.push(
                (
                    match v.last().path {
                        Some(p) => p@,
                        None => ""@,
                    },
                    status,
                    staged,
                ),
            ),
            None => before,
        }
    }
}

/// The staged changes come first, then the others, each with its path, its
/// status and its side; none is left out.
pub proof fn changes_stand_on_their_side(
    index: Vec<StatusEntry>,
    workdir: Vec<StatusEntry>,
    r: Vec<FileChange>,
)
    requires
        call_ensures(get_file_changes, (&index, &workdir), r),
    ensures
        r@.len() == side_changes(index@, true).len() + side_changes(workdir@, false).len(),
        forall|i: int|
            0 <= i < r@.len() ==> ((#[trigger] r@[i]).path@, r@[i].status, r@[i].staged) == (
            side_changes(index@, true) + side_changes(workdir@, false))[i],
{
    one_side(index@, true);
    one_side(workdir@, false);
    let v = crate::git::detail::changes_view(r@);
    assert(v.len() == r@.len());
    assert forall|i: int| 0 <= i < r@.len() implies (
        (#[trigger] r@[i]).path@,
        r@[i].status,
        r@[i].staged,
    ) == (side_changes(index@, true) + side_changes(workdir@, false))[i] by {
        assert(v[i] == r@[i]@);
    }
}

proof fn one_side(v: Seq<StatusEntry>, staged: bool)
    ensures
        v.filter_map(|e: StatusEntry| change_shown(e, staged)) == side_changes(v, staged),
    decreases v.len(),
{
    reveal(Seq::filter_map);
    if v.len() > 0 {
        one_side(v.drop_last(), staged);
        let before = side_changes(v.drop_last(), staged);
        assert(before + match change_shown(v.last(), staged) {
            Some(c) => seq![c],
            None => seq![],
        } =~= side_changes(v, staged));
    } else {
        assert(v.filter_map(|e: StatusEntry| change_shown(e, staged)) =~= seq![]);
    }
}

/// A patch is its lines one after the other: added, removed and unchanged ones
/// behind their mark, all others as they are.
pub proof fn a_patch_holds_all_lines(
    lines: Seq<PatchLine>,
    more: PatchLine,
    v: Vec<PatchLine>,
    all: String,
    of_file: String,
    of_commit: String,
)
    requires
        call_ensures(get_workdir_diff, (&v,), all),
        call_ensures(get_file_diff, (&v,), of_file),
        call_ensures(get_commit_diff, (&v,), of_commit),
    ensures
        patch_text(seq![]).len() == 0,
        patch_text(lines.push(more)) == patch_text(lines) + (if more.origin == '+' || more.origin
            == '-' || more.origin == ' ' {
            seq![more.origin]
        } else {
            seq![]
        }) + (match text_in(more.content@) {
            Some(s) => s,
            None => seq![],
        }),
        all@ == patch_text(v@),
        patch_text(v@).len() > 0 ==> of_file@ == patch_text(v@) && of_commit@ == patch_text(v@),
        patch_text(v@).len() == 0 ==> of_file@ == "(no diff available)"@ && of_commit@
            == "(empty commit)"@,
{
    assert(lines.push(more).drop_last() =~= lines);
    let mark = if more.origin == '+' || more.origin == '-' || more.origin == ' ' {
        seq![more.origin]
    } else {
        Seq::<char>::empty()
    };
    let s = match text_in(more.content@) {
        Some(s) => s,
        None => Seq::<char>::empty(),
    };
    assert(patch_text(lines) + (mark + s) =~= patch_text(lines) + mark + s);
    assert(mark + Seq::<char>::empty() =~= mark);
    assert(patch_text(lines) + mark + Seq::<char>::empty() =~= patch_text(lines) + mark);
}

/// Each file of a commit is shown by its path after it, or else by the one
/// before, with what happened to it.
pub proof fn files_of_a_commit_are_shown(deltas: Vec<CommitDelta>, r: Vec<CommitFileChange>)
    requires
        call_ensures(get_commit_files, (&deltas,), r),
    ensures
        r@.len() == deltas@.len(),
        forall|i: int|
            0 <= i < r@.len() ==> {
                let d = deltas@[i];
                &&& (#[trigger] r@[i]).path@ == match d.new_path {
                    Some(p) => p@,
                    None => match d.old_path {
                        Some(p) => p@,
                        None => ""@,
                    },
                }
                &&& r@[i].status@ == match d.kind {
                    DeltaKind::Added => "added"@,
                    DeltaKind::Deleted => "deleted"@,
                    DeltaKind::Renamed => "renamed"@,
                    DeltaKind::Copied => "copied"@,
                    _ => "modified"@,
                }
            },
{
    let v = crate::git::detail::files_view(r@);
    assert(v.len() == r@.len());
    assert forall|i: int| 0 <= i < r@.len() implies {
        let d = deltas@[i];
        &&& (#[trigger] r@[i]).path@ == match d.new_path {
            Some(p) => p@,
            None => match d.old_path {
                Some(p) => p@,
                None => ""@,
            },
        }
        &&& r@[i].status@ == match d.kind {
            DeltaKind::Added => "added"@,
            DeltaKind::Deleted => "deleted"@,
            DeltaKind::Renamed => "renamed"@,
            DeltaKind::Copied => "copied"@,
            _ => "modified"@,
        }
    } by {
        assert(v[i] == r@[i]@);
    }
}

/// Files are staged one by one, in order: one that exists is added to the
/// index, and one that does not is taken out.
pub proof fn staging_follows_the_files(
    files: Vec<String>,
    exist: Vec<bool>,
    r: Vec<IndexEdit>,
    root: &str,
    file: &str,
    at: String,
)
    requires
        exist@.len() == files@.len(),
        call_ensures(stage_files, (&files, &exist), r),
        call_ensures(file_in_repo, (root, file), at),
    ensures
        r@.len() == files@.len(),
        forall|i: int|
            0 <= i < r@.len() ==> match #[trigger] r@[i] {
                IndexEdit::Add(p) => exist@[i] && p@ == files@[i]@,
                IndexEdit::Remove(p) => !exist@[i] && p@ == files@[i]@,
            },
        root@.len() > 0 && root@.last() != '/' && file@.len() > 0 && file@[0] != '/' ==> at@ == root@
            + seq!['/'] + file@,
{
    let v = crate::git::detail::edits_view(r@);
    assert(v.len() == r@.len());
    assert forall|i: int| 0 <= i < r@.len() implies match #[trigger] r@[i] {
        IndexEdit::Add(p) => exist@[i] && p@ == files@[i]@,
        IndexEdit::Remove(p) => !exist@[i] && p@ == files@[i]@,
    } by {
        assert(v[i] == r@[i]@);
        assert(crate::text::texts(files@)[i] == files@[i]@);
    }
    assert(root@.push('/') + file@ =~= root@ + seq!['/'] + file@);
}

/// Files are unstaged by going back to HEAD, and taken out of the index only
/// where there is no commit yet.
pub proof fn unstaging_goes_back_to_head(has_head: bool, r: Unstaging)
    requires
        call_ensures(unstaging, (has_head,), r),
    ensures
        r is ResetToHead <==> has_head,
        r is Remove <==> !has_head,
{
}

// ── Branches, stashes, squashes ──────────

/// A branch as it is shown.
pub open spec fn shown_branch(b: RawBranch, head: Option<Seq<char>>, s: BranchView) -> bool {
    &&& b.name matches Some(n) && s.name == n@
    &&& s.is_head == (head == Some(s.name))
    &&& s.is_remote == b.remote
    &&& s.upstream == match b.upstream {
        Some(u) => Some(u@),
        None => None,
    }
}

/// The branches that are shown are those with a name, each as it was read; the
/// one that HEAD names comes first, then the local ones, then the remote ones,
/// each by name.
pub proof fn branches_are_listed_in_order(
    raw: Vec<RawBranch>,
    head: Option<&str>,
    r: Vec<BranchInfo>,
)
    requires
        call_ensures(get_branches, (&raw, head), r),
    ensures
        forall|i: int|
            0 <= i < r@.len() ==> exists|k: int|
                0 <= k < raw@.len() && shown_branch(
                    #[trigger] raw@[k],
                    match head {
                        Some(h) => Some(h@),
                        None => None,
                    },
                    (#[trigger] r@[i])@,
                ),
        forall|k: int|
            0 <= k < raw@.len() && (#[trigger] raw@[k]).name is Some ==> exists|i: int|
                0 <= i < r@.len() && (#[trigger] r@[i]).name@ == raw@[k].name.unwrap()@
                    && r@[i].is_remote == raw@[k].remote,
        forall|i: int, j: int|
            0 <= i < j < r@.len() ==> {
                let (a, b) = (#[trigger] r@[i], #[trigger] r@[j]);
                &&& b.is_head ==> a.is_head
                &&& a.is_head == b.is_head && a.is_remote ==> b.is_remote
                &&& a.is_head == b.is_head && a.is_remote == b.is_remote ==> text_le(
                    a.name@,
                    b.name@,
                )
            },
{
    let h = match head {
        Some(h) => Some(h@),
        None => None,
    };
    let f = |b: RawBranch| crate::git::detail::branch_shown(b, h);
    let s = raw@.filter_map(f);
    let v = crate::git::detail::branches_view(r@);
    assert(crate::git::ssh_config::opt_str_view(head) == h);
    shown_are_read(raw@, h);
    v.to_multiset_ensures();
    s.to_multiset_ensures();
    let le = crate::git::detail::branch_order();
    assert(crate::order::stably_sorted(v, s, le));
    assert forall|i: int| 0 <= i < r@.len() implies exists|k: int|
        0 <= k < raw@.len() && shown_branch(#[trigger] raw@[k], h, (#[trigger] r@[i])@) by {
        assert(v[i] == r@[i]@);
        assert(v.contains(v[i]));
        assert(v.to_multiset().count(v[i]) > 0);
        assert(s.to_multiset().count(v[i]) > 0);
        assert(s.contains(v[i]));
        let j = choose|j: int| 0 <= j < s.len() && s[j] == v[i];
        let k = choose|k: int| 0 <= k < raw@.len() && shown_branch(#[trigger] raw@[k], h, s[j]);
        assert(shown_branch(raw@[k], h, r@[i]@));
    }
    assert forall|k: int|
        0 <= k < raw@.len() && (#[trigger] raw@[k]).name is Some implies exists|i: int|
        0 <= i < r@.len() && (#[trigger] r@[i]).name@ == raw@[k].name.unwrap()@ && r@[i].is_remote
            == raw@[k].remote by {
        let j = choose|j: int| 0 <= j < s.len() && shown_branch(raw@[k], h, #[trigger] s[j]);
        assert(s.contains(s[j]));
        assert(s.to_multiset().count(s[j]) > 0);
        assert(v.to_multiset().count(s[j]) > 0);
        assert(v.contains(s[j]));
        let i = choose|i: int| 0 <= i < v.len() && v[i] == s[j];
        assert(v[i] == r@[i]@);
    }
    assert forall|i: int, j: int| 0 <= i < j < r@.len() implies {
        let (a, b) = (#[trigger] r@[i], #[trigger] r@[j]);
        &&& b.is_head ==> a.is_head
        &&& a.is_head == b.is_head && a.is_remote ==> b.is_remote
        &&& a.is_head == b.is_head && a.is_remote == b.is_remote ==> text_le(a.name@, b.name@)
    } by {
        assert(v[i] == r@[i]@ && v[j] == r@[j]@);
        assert(le(v[i], v[j]));
    }
}

proof fn shown_are_read(raw: Seq<RawBranch>, h: Option<Seq<char>>)
    ensures
        ({
            let s = raw.filter_map(|b: RawBranch| crate::git::detail::branch_shown(b, h));
            &&& forall|j: int|
                0 <= j < s.len() ==> exists|k: int|
                    0 <= k < raw.len() && shown_branch(#[trigger] raw[k], h, #[trigger] s[j])
            &&& forall|k: int|
                0 <= k < raw.len() && (#[trigger] raw[k]).name is Some ==> exists|j: int|
                    0 <= j < s.len() && shown_branch(raw[k], h, #[trigger] s[j])
        }),
    decreases raw.len(),
{
    reveal(Seq::filter_map);
    let f = |b: RawBranch| crate::git::detail::branch_shown(b, h);
    let s = raw.filter_map(f);
    if raw.len() > 0 {
        let w = raw.drop_last();
        shown_are_read(w, h);
        let before = w.filter_map(f);
        assert forall|j: int| 0 <= j < s.len() implies exists|k: int|
            0 <= k < raw.len() && shown_branch(#[trigger] raw[k], h, #[trigger] s[j]) by {
            if j < before.len() {
                assert(s[j] == before[j]);
                let k = choose|k: int| 0 <= k < w.len() && shown_branch(#[trigger] w[k], h, before[j]);
                assert(raw[k] == w[k]);
            } else {
                assert(shown_branch(raw[raw.len() - 1], h, s[j]));
            }
        }
        assert forall|k: int| 0 <= k < raw.len() && (#[trigger] raw[k]).name is Some implies exists|
            j: int,
        |
            0 <= j < s.len() && shown_branch(raw[k], h, #[trigger] s[j]) by {
            if k < w.len() {
                assert(w[k] == raw[k]);
                let j = choose|j: int|
                    0 <= j < before.len() && shown_branch(w[k], h, #[trigger] before[j]);
                assert(s[j] == before[j]);
            } else {
                assert(shown_branch(raw[k], h, s[s.len() - 1]));
            }
        }
    }
}

/// A checkout leads HEAD to the reference that was named, or to the commit
/// where it was none.
pub proof fn a_checkout_follows_the_reference(
    reference: Option<Option<String>>,
    r: AppResult<HeadTarget>,
)
    requires
        call_ensures(checkout_target, (reference,), r),
    ensures
        reference matches Some(Some(n)) ==> (r matches Ok(HeadTarget::Reference(m)) && m@ == n@),
        reference is None ==> (r matches Ok(HeadTarget::Commit)),
        reference matches Some(None) ==> r is Err,
{
}

/// A merge does nothing where it is up to date, moves HEAD on where that is
/// enough, and makes a commit otherwise; with conflicts it fails.
pub proof fn a_merge_does_the_least(
    branch: &str,
    up_to_date: bool,
    fast_forward: bool,
    plan: MergePlan,
    conflicts: bool,
    r: AppResult<String>,
)
    requires
        call_ensures(merge_branch, (branch, up_to_date, fast_forward), plan),
        call_ensures(merge_result, (conflicts,), r),
    ensures
        match plan {
            MergePlan::Nothing(s) => up_to_date && s@ == "Already up to date"@,
            MergePlan::FastForward { note, told } => {
                &&& !up_to_date && fast_forward
                &&& note@ == "Fast-forward merge "@ + branch@
                &&& told@ == "Fast-forward merge"@
            },
            MergePlan::Commit { message } => {
                &&& !up_to_date && !fast_forward
                &&& message@ == "Merge branch '"@ + branch@ + "'"@
            },
        },
        conflicts ==> (r matches Err(e) && e@ == AppErrorView::General(
            "Merge has conflicts — resolve them manually"@,
        )),
        !conflicts ==> (r matches Ok(s) && s@ == "Merge commit created"@),
{
}

/// A stash has the message that was given, or says that work is in progress.
pub proof fn a_stash_has_a_message(message: &str, r: String)
    requires
        call_ensures(stash_message, (message,), r),
    ensures
        message@.len() > 0 ==> r@ == message@,
        message@.len() == 0 ==> r@ == "WIP"@,
{
}

/// A squash of less than two commits is refused; any other starts at HEAD with
/// one step less than there are commits, and keeps its message.
pub proof fn a_squash_starts_at_head(
    count: usize,
    message: &str,
    r: (SquashTask, SquashStep),
    parents: usize,
    s: AppResult<()>,
)
    requires
        call_ensures(squash_commits, (count, message), r),
        call_ensures(squash_step, (parents,), s),
    ensures
        count < 2 ==> (r.1 matches SquashStep::Failed(e) && e@ == AppErrorView::General(
            "Need at least 2 commits to squash"@,
        )) && r.0.phase == SquashPhase::Over && r.0.steps == 0,
        count >= 2 ==> {
            &&& r.1 matches SquashStep::Ask(SquashRequest::ReadHead)
            &&& r.0.phase == SquashPhase::ReadHead
            &&& r.0.steps == count - 1
            &&& r.0.message@ == message@
        },
        s is Ok <==> parents == 1,
        parents == 0 ==> (s matches Err(e) && e@ == AppErrorView::General(
            "Not enough commits to squash"@,
        )),
        parents > 1 ==> (s matches Err(e) && e@ == AppErrorView::General(
            "Cannot squash across merge commits"@,
        )),
{
}

/// A squash takes the reply that it waits for, or a failure until it is over.
pub proof fn a_squash_takes_its_reply(t: SquashTask, reply: SquashReply, r: bool)
    requires
        call_ensures(SquashTask::accepts, (&t, &reply), r),
    ensures
        r == match reply {
            SquashReply::Failed(_) => t.phase != SquashPhase::Over,
            SquashReply::Head(_) => t.phase == SquashPhase::ReadHead,
            SquashReply::Parents(_) => t.phase == SquashPhase::Walk,
            SquashReply::Made(_) => t.phase == SquashPhase::Commit,
            SquashReply::Done => t.phase == SquashPhase::MoveHead,
        },
{
    assert(t@.phase == t.phase);
}

/// A squash walks from HEAD to the first parents; at the end of its steps it
/// makes a commit with the tree of HEAD, the parents of where it has come and
/// its message, moves HEAD to that commit, and is done with it.
pub proof fn a_squash_goes_its_way(t: SquashTask, reply: SquashReply, r: (SquashTask, SquashStep))
    requires
        t@.accepts(reply),
        call_ensures(SquashTask::advance, (t, reply), r),
    ensures
        r.0.message@ == t.message@,
        match reply {
            SquashReply::Failed(e) => r.1 matches SquashStep::Failed(f) && f@ == e@,
            SquashReply::Head(id) => {
                &&& r.0.head@ == id@ && r.0.steps == t.steps
                &&& r.1 matches SquashStep::Ask(SquashRequest::ReadParents(p)) && p@ == id@
            },
            SquashReply::Parents(v) => {
                &&& r.0.head@ == t.head@
                &&& t.steps > 0 && v@.len() == 1 ==> {
                    &&& r.0.steps == t.steps - 1
                    &&& r.1 matches SquashStep::Ask(SquashRequest::ReadParents(p)) && p@ == v@[0]@
                }
                &&& t.steps > 0 && v@.len() != 1 ==> r.1 is Failed
                &&& t.steps == 0 ==> {
                    &&& r.1 matches SquashStep::Ask(
                        SquashRequest::Commit { tree_of, parents, message },
                    )
                    &&& tree_of@ == t.head@
                    &&& message@ == t.message@
                    &&& parents@.len() == v@.len()
                    &&& forall|i: int| 0 <= i < v@.len() ==> (#[trigger] parents@[i])@ == v@[i]@
                }
            },
            SquashReply::Made(id) => r.1 matches SquashStep::Ask(SquashRequest::MoveHead(p)) && p@
                == id@ && r.0.made@ == id@,
            SquashReply::Done => r.1 matches SquashStep::Done(p) && p@ == t.made@,
        },
{
    if let SquashReply::Parents(v) = reply {
        let all = crate::text::texts(v@);
        assert(all.len() == v@.len());
        assert(v@.len() > 0 ==> all[0] == v@[0]@);
        if t.steps == 0 {
            if let SquashStep::Ask(SquashRequest::Commit { tree_of, parents, message }) = r.1 {
                let made = crate::text::texts(parents@);
                assert(made == all);
                assert(made.len() == parents@.len());
                assert forall|i: int| 0 <= i < v@.len() implies (#[trigger] parents@[i])@
                    == v@[i]@ by {
                    assert(made[i] == parents@[i]@ && all[i] == v@[i]@);
                }
            }
        }
    }
}

// ── Remotes, profile, pages ──────────────

/// A remote is shown by its name and its address, a profile by its name and
/// its mail address, each empty where it is not there.
pub proof fn remotes_and_profiles_are_shown(
    name: String,
    url: Option<String>,
    r: RemoteInfo,
    user: Option<String>,
    email: Option<String>,
    p: GitProfile,
)
    requires
        call_ensures(remote_info, (name, url), r),
        call_ensures(get_git_profile, (user, email), p),
    ensures
        r.name@ == name@,
        url matches Some(u) ==> r.url@ == u@,
        url is None ==> r.url@.len() == 0,
        user matches Some(u) ==> p.name@ == u@,
        user is None ==> p.name@.len() == 0,
        email matches Some(u) ==> p.email@ == u@,
        email is None ==> p.email@.len() == 0,
{
    reveal_strlit("");
    assert(r@.0 == r.name@ && r@.1 == r.url@);
}

/// The page for a pull request needs the address of origin.
pub proof fn a_page_needs_origin(found: Option<Option<String>>, r: AppResult<String>)
    requires
        call_ensures(origin_url, (found,), r),
    ensures
        found matches Some(Some(u)) ==> (r matches Ok(s) && s@ == u@),
        found matches Some(None) ==> (r matches Err(e) && e@ == AppErrorView::General(
            "Origin remote has no URL"@,
        )),
        found is None ==> (r matches Err(e) && e@ == AppErrorView::General(
            "No 'origin' remote found"@,
        )),
{
}

/// The page for a pull request is the one of the host: each host has its own
/// form, which ends with the branch or names it, and other hosts are refused.
pub proof fn a_page_is_that_of_the_host(url: &str, branch: Option<&str>, r: AppResult<String>)
    requires
        call_ensures(get_pr_url, (url, branch), r),
    ensures
        ({
            let base = crate::git::remote_url::web_address(url@);
            let b = match branch {
                Some(b) => b@,
                None => "main"@,
            };
            let github = has_text(base, "github.com"@);
            let gitlab = has_text(base, "gitlab"@);
            let bitbucket = has_text(base, "bitbucket.org"@);
            &&& github ==> (r matches Ok(s) && s@ == base + "/compare/"@ + b + "?expand=1"@)
            &&& !github && gitlab ==> (r matches Ok(s) && s@ == base
                + "/-/merge_requests/new?merge_request%5Bsource_branch%5D="@ + b)
            &&& !github && !gitlab && bitbucket ==> (r matches Ok(s) && s@ == base
                + "/pull-requests/new?source="@ + b)
            &&& !github && !gitlab && !bitbucket ==> (r matches Err(e) && e@
                == AppErrorView::General("Unsupported git host in URL: "@ + url@))
        }),
{
}

/// The readme file is the first one that is there, of the names in the order
/// of preference.
pub proof fn the_first_readme_is_shown(
    names: Vec<String>,
    is_file: Vec<bool>,
    r: Option<String>,
    name: &str,
    why: &str,
    e: AppError,
)
    requires
        call_ensures(readme_names, (), names),
        is_file@.len() == names@.len(),
        call_ensures(get_readme, (&is_file,), r),
        call_ensures(readme_error, (name, why), e),
    ensures
        names@.len() == 7,
        names@[0]@ == "README.md"@ && names@[1]@ == "readme.md"@ && names@[2]@ == "Readme.md"@,
        names@[3]@ == "README.MD"@ && names@[4]@ == "README"@ && names@[5]@ == "README.txt"@,
        names@[6]@ == "README.rst"@,
        r is None <==> forall|i: int| 0 <= i < is_file@.len() ==> !#[trigger] is_file@[i],
        forall|k: int|
            0 <= k < is_file@.len() && is_file@[k] && (forall|i: int|
                0 <= i < k ==> !#[trigger] is_file@[i]) ==> (r matches Some(s) && s@ == (
            #[trigger] names@[k])@),
        e@ == AppErrorView::General("Failed to read "@ + name@ + ": "@ + why@),
{
    let v = crate::text::texts(names@);
    assert(v.len() == names@.len());
    assert(v[0] == names@[0]@ && v[1] == names@[1]@ && v[2] == names@[2]@ && v[3] == names@[3]@);
    assert(v[4] == names@[4]@ && v[5] == names@[5]@ && v[6] == names@[6]@);
    is_file@.index_of_first_ensures(true);
    match is_file@.index_of_first(true) {
        Some(i) => {
            assert forall|k: int|
                0 <= k < is_file@.len() && is_file@[k] && (forall|j: int|
                    0 <= j < k ==> !#[trigger] is_file@[j]) implies (r matches Some(s) && s@ == (
            #[trigger] names@[k])@) by {
                if k < i {
                    assert(is_file@[k] != true);
                }
                if i < k {
                    assert(!is_file@[i]);
                }
                assert(v[k] == names@[k]@);
            }
        },
        None => {
            assert forall|i: int| 0 <= i < is_file@.len() implies !#[trigger] is_file@[i] by {
                if is_file@[i] {
                    assert(is_file@.contains(true));
                }
            }
        },
    }
}

// ── What is kept ─────────────────────────

/// What is known is kept under the user's data directory, in a directory and
/// a file of its own.
pub proof fn what_is_known_has_its_place(base: &str, data: Option<String>, cached: String)
    requires
        base@.len() > 0,
        base@.last() != '/',
        call_ensures(data_dir, (Some(base),), data),
        call_ensures(cache_file, (base,), cached),
    ensures
        data matches Some(d) && d@ == base@ + "/"@ + "gitatlas"@,
        cached@ == base@ + "/"@ + "cache.json"@,
{
    reveal_strlit("gitatlas");
    reveal_strlit("cache.json");
    below(base@, "gitatlas"@);
    below(base@, "cache.json"@);
}

/// The configuration is kept under the user's configuration directory, in a
/// directory and a file of its own; the default root is in the home directory.
pub proof fn the_configuration_has_its_place(
    base: &str,
    config: Option<String>,
    root: Option<String>,
    configured: String,
)
    requires
        base@.len() > 0,
        base@.last() != '/',
        call_ensures(config_dir, (Some(base),), config),
        call_ensures(default_root, (Some(base),), root),
        call_ensures(config_file, (base,), configured),
    ensures
        config matches Some(d) && d@ == base@ + "/"@ + "gitatlas"@,
        root matches Some(d) && d@ == base@ + "/"@ + "dev"@,
        configured@ == base@ + "/"@ + "config.json"@,
{
    reveal_strlit("gitatlas");
    reveal_strlit("dev");
    reveal_strlit("config.json");
    below(base@, "gitatlas"@);
    below(base@, "dev"@);
    below(base@, "config.json"@);
}

proof fn below(base: Seq<char>, name: Seq<char>)
    requires
        base.len() > 0,
        base.last() != '/',
        name.len() > 0,
        name[0] != '/',
    ensures
        crate::paths::joined_path(base, name) == base + "/"@ + name,
{
    reveal_strlit("/");
    assert(base.push('/') + name =~= base + "/"@ + name);
}

/// Without the directory of the user nothing is kept under it.
pub proof fn without_a_place_nothing_is_kept(
    data: Option<String>,
    config: Option<String>,
    root: Option<String>,
)
    requires
        call_ensures(data_dir, (None::<&str>,), data),
        call_ensures(config_dir, (None::<&str>,), config),
        call_ensures(default_root, (None::<&str>,), root),
    ensures
        data is None,
        config is None,
        root is None,
{
}

/// The roots that are scanned are the configured ones; without any it is the
/// default root, where that is a directory.
pub proof fn configured_roots_are_scanned(
    cfg: Config,
    home: Option<&str>,
    default_is_dir: bool,
    root: Option<String>,
    r: Vec<String>,
)
    requires
        call_ensures(effective_scan_roots, (cfg, home, default_is_dir), r),
        call_ensures(default_root, (home,), root),
    ensures
        cfg.scan_roots@.len() > 0 ==> crate::text::texts(r@) == crate::text::texts(
            cfg.scan_roots@,
        ),
        cfg.scan_roots@.len() == 0 && (home is None || !default_is_dir) ==> r@.len() == 0,
        cfg.scan_roots@.len() == 0 && home is Some && default_is_dir ==> r@.len() == 1 && r@[0]@
            == root.unwrap()@,
{
    let v = crate::text::texts(r@);
    assert(v.len() == r@.len());
    assert(crate::text::texts(cfg.scan_roots@).len() == cfg.scan_roots@.len());
    if cfg.scan_roots@.len() == 0 && home is Some && default_is_dir {
        assert(v[0] == r@[0]@);
    }
}

/// A repository is found at the first place that has its path.
pub proof fn a_place_is_the_first(repos: Vec<RepoInfo>, path: &str, r: Option<usize>)
    requires
        call_ensures(find_place, (&repos, path), r),
    ensures
        match r {
            Some(i) => {
                &&& i < repos@.len()
                &&& repos@[i as int].path@ == path@
                &&& forall|j: int| 0 <= j < i ==> (#[trigger] repos@[j]).path@ != path@
            },
            None => forall|j: int| 0 <= j < repos@.len() ==> (#[trigger] repos@[j]).path@ != path@,
        },
{
    place_is_first(repos@, path@);
}

} // verus!
