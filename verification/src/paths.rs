//! File paths as text, with `/` between their parts.
use vstd::prelude::*;
use vstd::string::*;

use crate::text;
use crate::text::{cut_last, opt_view, text_le};

verus! {

// ── Joining ──────────────────────────────

/// `rel` taken from `base`: an absolute `rel` stands for itself, and one
/// separator stands between the two otherwise.
pub open spec fn joined_path(base: Seq<char>, rel: Seq<char>) -> Seq<char> {
    if rel.len() > 0 && rel[0] == '/' {
        rel
    } else if base.len() == 0 || base.last() == '/' {
        base + rel
    } else {
        base.push('/') + rel
    }
}

/// `rel` taken from `base`.
pub fn join(base: &str, rel: &str) -> (r: String)
    ensures
        r@ == joined_path(base@, rel@),
{
    let b = text::chars_of(base);
    let c = text::chars_of(rel);
    if c.len() > 0 && c[0] == '/' {
        return text::copy(rel);
    }
    let mut out = text::copy(base);
    if b.len() > 0 && b[b.len() - 1] != '/' {
        out.push('/');
    }
    out.append(rel);
    out
}

// ── The last part ────────────────────────

/// A path without the separators, and the parts `.`, that end it.
pub open spec fn path_body(s: Seq<char>) -> Seq<char>
    decreases s.len(),
{
    if s.len() > 0 && s.last() == '/' {
        path_body(s.drop_last())
    } else if s.len() > 1 && s.last() == '.' && s[s.len() - 2] == '/' {
        path_body(s.take(s.len() - 2))
    } else {
        s
    }
}

/// What follows the last separator.
pub open spec fn last_piece(s: Seq<char>) -> Seq<char> {
    match cut_last(s, '/') {
        Some(c) => c.1,
        None => s,
    }
}

/// The name that a path ends with; none where it ends with `..`, or where it
/// is empty, a root or `.`.
pub open spec fn file_name_of(s: Seq<char>) -> Option<Seq<char>> {
    let p = last_piece(path_body(s));
    if p.len() == 0 || p == seq!['.'] || p == seq!['.', '.'] {
        None
    } else {
        Some(p)
    }
}

/// The path without the separators, and the parts `.`, that end it.
fn body_of(s: &str) -> (r: String)
    ensures
        r@ == path_body(s@),
{
    let cs = text::chars_of(s);
    let mut n: usize = cs.len();
    assert(s@.take(n as int) =~= s@);
    loop
        invariant
            cs@ == s@,
            n <= cs@.len(),
            path_body(s@) == path_body(s@.take(n as int)),
        decreases n,
    {
        let ghost t = s@.take(n as int);
        if n > 0 && cs[n - 1] == '/' {
            assert(t.drop_last() =~= s@.take(n - 1));
            n = n - 1;
        } else if n > 1 && cs[n - 1] == '.' && cs[n - 2] == '/' {
            assert(t.take(t.len() - 2) =~= s@.take(n - 2));
            n = n - 2;
        } else {
            let out = text::text_of(&cs, 0, n);
            assert(out@ =~= t);
            return out;
        }
    }
}

/// The name that a path ends with.
pub fn file_name(s: &str) -> (r: Option<String>)
    ensures
        opt_view(r) == file_name_of(s@),
{
    let body = body_of(s);
    let piece = match text::rsplit_once(body.as_str(), '/') {
        Some((_, p)) => p,
        None => body,
    };
    assert(piece@ == last_piece(path_body(s@)));
    let cs = text::chars_of(piece.as_str());
    if cs.len() == 0 {
        return None;
    }
    if cs.len() == 1 && cs[0] == '.' {
        assert(piece@ =~= seq!['.']);
        return None;
    }
    if cs.len() == 2 && cs[0] == '.' && cs[1] == '.' {
        assert(piece@ =~= seq!['.', '.']);
        return None;
    }
    assert(piece@ != seq!['.'] && piece@ != seq!['.', '.']) by {
        if piece@ == seq!['.'] {
            assert(piece@.len() == 1 && piece@[0] == '.');
        }
        if piece@ == seq!['.', '.'] {
            assert(piece@.len() == 2 && piece@[0] == '.' && piece@[1] == '.');
        }
    }
    Some(piece)
}

// ── Extensions ───────────────────────────

/// What a file name ends with behind its last dot; none where the name has
/// no dot, or only one at its front.
pub open spec fn extension_of_name(f: Seq<char>) -> Option<Seq<char>> {
    match cut_last(f, '.') {
        Some(c) => if c.0.len() == 0 {
            None
        } else {
            Some(c.1)
        },
        None => None,
    }
}

/// A file name without its extension and the dot before it.
pub open spec fn stem_of_name(f: Seq<char>) -> Seq<char> {
    match extension_of_name(f) {
        Some(e) => f.take(f.len() - e.len() - 1),
        None => f,
    }
}

/// The extension of the name that a path ends with.
pub open spec fn extension_of(s: Seq<char>) -> Option<Seq<char>> {
    match file_name_of(s) {
        Some(f) => extension_of_name(f),
        None => None,
    }
}

/// The path with the extension of its name made `ext`, or taken away where
/// `ext` is empty.
pub open spec fn with_extension_of(s: Seq<char>, ext: Seq<char>) -> Seq<char> {
    match file_name_of(s) {
        Some(f) => {
            let body = path_body(s);
            let kept = body.take(body.len() - f.len() + stem_of_name(f).len());
            if ext.len() == 0 {
                kept
            } else {
                kept.push('.') + ext
            }
        },
        None => s,
    }
}

/// The extension of the name that a path ends with.
pub fn extension(s: &str) -> (r: Option<String>)
    ensures
        opt_view(r) == extension_of(s@),
{
    match file_name(s) {
        Some(f) => match text::rsplit_once(f.as_str(), '.') {
            Some((before, after)) => if text::length(before.as_str()) == 0 {
                None
            } else {
                Some(after)
            },
            None => None,
        },
        None => None,
    }
}

/// The last part of a path is no longer than the path.
proof fn last_piece_fits(s: Seq<char>)
    ensures
        last_piece(s).len() <= s.len(),
{
    s.index_of_last_ensures('/');
}

/// The path with the extension of its name made `ext`.
pub fn with_extension(s: &str, ext: &str) -> (r: String)
    ensures
        r@ == with_extension_of(s@, ext@),
{
    match file_name(s) {
        Some(f) => {
            let body = body_of(s);
            let n: usize = text::length(body.as_str());
            let k: usize = text::length(f.as_str());
            proof {
                last_piece_fits(path_body(s@));
                f@.index_of_last_ensures('.');
            }
            let tail: usize = match extension(s) {
                Some(e) => text::length(e.as_str()) + 1,
                None => 0,
            };
            let mut out = text::part(body.as_str(), 0, n - tail);
            assert(out@ =~= body@.take(body@.len() - f@.len() + stem_of_name(f@).len()));
            if text::length(ext) > 0 {
                out.push('.');
                out.append(ext);
            }
            out
        },
        None => text::copy(s),
    }
}

// ── Parts ────────────────────────────────

/// One part of a path.
pub enum PathPart {
    /// The separator at the front of an absolute path.
    Root,
    /// `.` at the front of a relative path.
    Current,
    /// `..`
    Parent,
    Name(String),
}

/// What a part stands for: its rank among the kinds of part, and its name.
pub open spec fn part_view(p: PathPart) -> (int, Seq<char>) {
    match p {
        PathPart::Root => (0, seq![]),
        PathPart::Current => (1, seq![]),
        PathPart::Parent => (2, seq![]),
        PathPart::Name(n) => (3, n@),
    }
}

pub open spec fn parts_view(v: Seq<PathPart>) -> Seq<(int, Seq<char>)> {
    v.map_values(|p: PathPart| part_view(p))
}

/// What the text between two separators stands for: nothing where it is
/// empty, or where it is `.` and not the first.
pub open spec fn piece_parts(piece: Seq<char>, first: bool) -> Seq<(int, Seq<char>)> {
    if piece.len() == 0 {
        seq![]
    } else if piece == seq!['.'] {
        if first {
            seq![(1int, seq![])]
        } else {
            seq![]
        }
    } else if piece == seq!['.', '.'] {
        seq![(2int, seq![])]
    } else {
        seq![(3int, piece)]
    }
}

/// The parts of what follows the first separators of a path.
pub open spec fn parts_from(s: Seq<char>, first: bool) -> Seq<(int, Seq<char>)>
    decreases s.len(),
    via parts_from_decreases
{
    match s.index_of_first('/') {
        Some(i) => piece_parts(s.take(i), first) + parts_from(s.skip(i + 1), false),
        None => piece_parts(s, first),
    }
}

#[via_fn]
proof fn parts_from_decreases(s: Seq<char>, first: bool) {
    s.index_of_first_ensures('/');
}

/// The parts of a path. Two paths with the same parts are the same path:
/// repeated separators, separators at the end and inner `.` do not count.
pub open spec fn path_parts(s: Seq<char>) -> Seq<(int, Seq<char>)> {
    if s.len() > 0 && s[0] == '/' {
        seq![(0int, seq![])] + parts_from(s, true)
    } else {
        parts_from(s, true)
    }
}

/// Adds what the text between two separators stands for.
fn push_piece(out: &mut Vec<PathPart>, cs: &Vec<char>, from: usize, to: usize, first: bool)
    requires
        from <= to <= cs@.len(),
    ensures
        parts_view(final(out)@) == parts_view(old(out)@) + piece_parts(
            cs@.subrange(from as int, to as int),
            first,
        ),
{
    let ghost before = out@;
    let ghost piece = cs@.subrange(from as int, to as int);
    let n: usize = to - from;
    if n == 0 {
        assert(parts_view(out@) =~= parts_view(before) + piece_parts(piece, first));
    } else if n == 1 && cs[from] == '.' {
        assert(piece =~= seq!['.']);
        if first {
            out.push(PathPart::Current);
        }
        assert(parts_view(out@) =~= parts_view(before) + piece_parts(piece, first));
    } else if n == 2 && cs[from] == '.' && cs[from + 1] == '.' {
        assert(piece =~= seq!['.', '.']);
        assert(piece.len() == 2);
        out.push(PathPart::Parent);
        assert(parts_view(out@) =~= parts_view(before) + piece_parts(piece, first));
    } else {
        let name = text::text_of(cs, from, to);
        assert(piece != seq!['.'] && piece != seq!['.', '.']) by {
            assert(piece.len() == n);
            assert(piece[0] == cs@[from as int]);
            if piece == seq!['.', '.'] {
                assert(piece[1] == cs@[from + 1]);
            }
        }
        out.push(PathPart::Name(name));
        assert(parts_view(out@) =~= parts_view(before) + piece_parts(piece, first));
    }
}

/// The parts of a path.
pub fn parts(s: &str) -> (r: Vec<PathPart>)
    ensures
        parts_view(r@) == path_parts(s@),
{
    let cs = text::chars_of(s);
    let n: usize = cs.len();
    let mut out: Vec<PathPart> = Vec::new();
    if n > 0 && cs[0] == '/' {
        out.push(PathPart::Root);
        assert(parts_view(out@) =~= seq![(0int, Seq::<char>::empty())]);
    } else {
        assert(parts_view(out@) =~= seq![]);
    }
    let mut start: usize = 0;
    let mut first: bool = true;
    let mut i: usize = 0;
    assert(s@.skip(0) =~= s@);
    assert(parts_view(out@) + parts_from(s@, true) =~= path_parts(s@));
    while i < n
        invariant
            cs@ == s@,
            n == cs@.len(),
            start <= i <= n,
            forall|j: int| start <= j < i ==> cs@[j] != '/',
            parts_view(out@) + parts_from(s@.skip(start as int), first) == path_parts(s@),
        decreases n - i,
    {
        if cs[i] == '/' {
            let ghost rest = s@.skip(start as int);
            let ghost before = parts_view(out@);
            push_piece(&mut out, &cs, start, i, first);
            proof {
                rest.index_of_first_ensures('/');
                assert(rest[i - start] == '/');
                assert(rest.contains('/'));
                let k = rest.index_of_first('/').unwrap();
                assert(k == i - start) by {
                    if k < i - start {
                        assert(cs@[start + k] != '/');
                    }
                }
                assert(rest.take(k) =~= cs@.subrange(start as int, i as int));
                assert(rest.skip(k + 1) =~= s@.skip(i + 1));
                assert(before + (piece_parts(rest.take(k), first) + parts_from(
                    rest.skip(k + 1),
                    false,
                )) =~= (before + piece_parts(rest.take(k), first)) + parts_from(
                    rest.skip(k + 1),
                    false,
                ));
            }
            i = i + 1;
            start = i;
            first = false;
        } else {
            i = i + 1;
        }
    }
    proof {
        let rest = s@.skip(start as int);
        rest.index_of_first_ensures('/');
        assert(!rest.contains('/'));
        assert(rest =~= cs@.subrange(start as int, n as int));
    }
    push_piece(&mut out, &cs, start, n, first);
    out
}

/// Two paths are the same path.
pub open spec fn same_path(a: Seq<char>, b: Seq<char>) -> bool {
    path_parts(a) == path_parts(b)
}

// ── Order ────────────────────────────────

/// One part comes before another or equals it.
pub open spec fn part_le(a: (int, Seq<char>), b: (int, Seq<char>)) -> bool {
    a.0 < b.0 || (a.0 == b.0 && text_le(a.1, b.1))
}

/// The parts of one path come before those of another or equal them.
pub open spec fn parts_le(a: Seq<(int, Seq<char>)>, b: Seq<(int, Seq<char>)>) -> bool
    decreases a.len(),
{
    if a.len() == 0 {
        true
    } else if b.len() == 0 {
        false
    } else if a[0] == b[0] {
        parts_le(a.drop_first(), b.drop_first())
    } else {
        part_le(a[0], b[0])
    }
}

/// One path comes before another or is the same.
pub open spec fn path_le(a: Seq<char>, b: Seq<char>) -> bool {
    parts_le(path_parts(a), path_parts(b))
}

fn rank(p: &PathPart) -> (r: u8)
    ensures
        r == part_view(*p).0,
{
    match p {
        PathPart::Root => 0,
        PathPart::Current => 1,
        PathPart::Parent => 2,
        PathPart::Name(_) => 3,
    }
}

fn name_of(p: &PathPart) -> (r: String)
    ensures
        r@ == part_view(*p).1,
{
    match p {
        PathPart::Name(n) => n.clone(),
        _ => String::new(),
    }
}

/// Whether one path comes before another or is the same.
pub fn not_after(a: &str, b: &str) -> (r: bool)
    ensures
        r == path_le(a@, b@),
{
    let x = parts(a);
    let y = parts(b);
    let ghost xs = parts_view(x@);
    let ghost ys = parts_view(y@);
    let mut i: usize = 0;
    assert(xs.skip(0) =~= xs);
    assert(ys.skip(0) =~= ys);
    while i < x.len() && i < y.len()
        invariant
            xs == parts_view(x@),
            ys == parts_view(y@),
            xs == path_parts(a@),
            ys == path_parts(b@),
            i <= x@.len(),
            i <= y@.len(),
            parts_le(xs, ys) == parts_le(xs.skip(i as int), ys.skip(i as int)),
        decreases x@.len() - i,
    {
        let m: u8 = rank(&x[i]);
        let k: u8 = rank(&y[i]);
        let p = name_of(&x[i]);
        let q = name_of(&y[i]);
        assert(xs[i as int] == part_view(x@[i as int]));
        assert(ys[i as int] == part_view(y@[i as int]));
        let equal: bool = m == k && p == q;
        assert(equal == (xs[i as int] == ys[i as int]));
        if !equal {
            if m != k {
                return m < k;
            }
            return text::not_after(p.as_str(), q.as_str());
        }
        assert(xs.skip(i as int).drop_first() =~= xs.skip(i + 1));
        assert(ys.skip(i as int).drop_first() =~= ys.skip(i + 1));
        i = i + 1;
    }
    i == x.len()
}

/// Whether two texts name the same path.
pub fn same(a: &str, b: &str) -> (r: bool)
    ensures
        r == same_path(a@, b@),
{
    let x = parts(a);
    let y = parts(b);
    let ghost xs = parts_view(x@);
    let ghost ys = parts_view(y@);
    if x.len() != y.len() {
        assert(xs.len() != ys.len());
        return false;
    }
    let mut i: usize = 0;
    while i < x.len()
        invariant
            xs == parts_view(x@),
            ys == parts_view(y@),
            xs == path_parts(a@),
            ys == path_parts(b@),
            x@.len() == y@.len(),
            i <= x@.len(),
            forall|j: int| 0 <= j < i ==> xs[j] == ys[j],
        decreases x@.len() - i,
    {
        let p = name_of(&x[i]);
        let q = name_of(&y[i]);
        let equal: bool = rank(&x[i]) == rank(&y[i]) && p == q;
        assert(xs[i as int] == part_view(x@[i as int]));
        assert(ys[i as int] == part_view(y@[i as int]));
        if !equal {
            assert(xs[i as int] != ys[i as int]);
            return false;
        }
        i = i + 1;
    }
    assert(xs =~= ys);
    true
}

/// The order of the parts of paths is total.
pub proof fn parts_le_total(a: Seq<(int, Seq<char>)>, b: Seq<(int, Seq<char>)>)
    ensures
        parts_le(a, b) || parts_le(b, a),
    decreases a.len(),
{
    if a.len() > 0 && b.len() > 0 {
        if a[0] == b[0] {
            parts_le_total(a.drop_first(), b.drop_first());
        } else {
            text::text_le_total(a[0].1, b[0].1);
        }
    }
}

/// The order of the parts of paths is transitive.
pub proof fn parts_le_transitive(
    a: Seq<(int, Seq<char>)>,
    b: Seq<(int, Seq<char>)>,
    c: Seq<(int, Seq<char>)>,
)
    requires
        parts_le(a, b),
        parts_le(b, c),
    ensures
        parts_le(a, c),
    decreases a.len(),
{
    if a.len() > 0 {
        if a[0] == b[0] && b[0] == c[0] {
            parts_le_transitive(a.drop_first(), b.drop_first(), c.drop_first());
        } else if a[0].0 == b[0].0 && b[0].0 == c[0].0 {
            text::text_le_total(a[0].1, b[0].1);
            text::text_le_total(b[0].1, c[0].1);
            if text_le(a[0].1, b[0].1) && text_le(b[0].1, c[0].1) {
                text::text_le_transitive(a[0].1, b[0].1, c[0].1);
            }
            if a[0] == c[0] {
                text::text_le_antisymmetric(a[0].1, b[0].1);
            }
        }
    }
}

/// Parts that come before each other are the same parts.
pub proof fn parts_le_antisymmetric(a: Seq<(int, Seq<char>)>, b: Seq<(int, Seq<char>)>)
    requires
        parts_le(a, b),
        parts_le(b, a),
    ensures
        a == b,
    decreases a.len(),
{
    if a.len() > 0 {
        if a[0] != b[0] {
            text::text_le_antisymmetric(a[0].1, b[0].1);
        } else {
            parts_le_antisymmetric(a.drop_first(), b.drop_first());
            assert(a =~= seq![a[0]] + a.drop_first());
            assert(b =~= seq![b[0]] + b.drop_first());
        }
    } else {
        assert(a =~= b);
    }
}

} // verus!
