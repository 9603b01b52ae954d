//! What texts, numbers and paths are made of.
use vstd::prelude::*;
use vstd::string::*;

use crate::paths::{extension_of, file_name_of, joined_path, path_body, same_path,
    with_extension_of};
use crate::text::{all_digits, ascii_lowercase, cut_first, cut_last, decimal_of, digit, has_text,
    joined, lines_of, occurs_at, port_number, replaced, replaced_first, text_le, trim_back,
    trim_front, trimmed, two_digits_of, unsigned_digits, value_of};

verus! {

// ── Numbers ──────────────────────────────

/// The digits of a number say its value, and the first of them is no zero
/// unless it is the only one.
pub proof fn numbers_read_back(n: nat)
    ensures
        value_of(decimal_of(n)) == n,
        all_digits(decimal_of(n)),
        decimal_of(n).len() > 0,
        n > 0 ==> decimal_of(n)[0] != '0',
        n == 0 ==> decimal_of(n) == seq!['0'],
    decreases n,
{
    let d = decimal_of(n);
    if n < 10 {
        assert(d.drop_last() =~= seq![]);
        assert(value_of(d.drop_last()) == 0);
    } else {
        numbers_read_back(n / 10);
        let w = decimal_of(n / 10);
        assert(d.drop_last() =~= w);
        assert forall|i: int| 0 <= i < d.len() implies '0' <= #[trigger] d[i] <= '9' by {
            if i < w.len() {
                assert(d[i] == w[i]);
            }
        }
        assert(d[0] == w[0]);
    }
}

/// A port is read back from its digits.
pub proof fn ports_read_back(p: u16)
    ensures
        port_number(decimal_of(p as nat)) == Some(p),
{
    numbers_read_back(p as nat);
    let d = decimal_of(p as nat);
    assert('0' <= d[0] <= '9');
    assert(unsigned_digits(d) == d);
}

/// A number in two digits has at least two of them, and the same value.
pub proof fn two_digits_are_two(n: nat)
    ensures
        n < 10 ==> two_digits_of(n) == seq!['0', digit(n as int)],
        n >= 10 ==> two_digits_of(n) == decimal_of(n),
        two_digits_of(n).len() >= 2,
        value_of(two_digits_of(n)) == n,
{
    numbers_read_back(n);
    if n < 10 {
        assert(two_digits_of(n) =~= seq!['0', digit(n as int)]);
        let d = seq!['0', digit(n as int)];
        assert(d.drop_last() =~= seq!['0']);
        assert(seq!['0'].drop_last() =~= seq![]);
        assert(value_of(seq!['0'].drop_last()) == 0);
        assert(value_of(seq!['0']) == 0);
    } else {
        assert(decimal_of(n / 10).len() > 0) by {
            numbers_read_back(n / 10);
        }
    }
}

// ── Texts ────────────────────────────────

/// A text is cut at the first mark: into what stands before it and all that
/// follows.
pub proof fn the_first_mark_cuts(a: Seq<char>, c: char, b: Seq<char>)
    requires
        !a.contains(c),
    ensures
        cut_first(a + seq![c] + b, c) == Some((a, b)),
        cut_first(a, c) is None,
{
    let s = a + seq![c] + b;
    s.index_of_first_ensures(c);
    a.index_of_first_ensures(c);
    assert(s[a.len() as int] == c);
    assert(s.contains(c));
    let i = s.index_of_first(c).unwrap();
    if i < a.len() {
        assert(a[i] == s[i]);
        assert(a.contains(c));
    }
    assert(i == a.len());
    assert(s.take(i) =~= a);
    assert(s.skip(i + 1) =~= b);
}

/// A text is cut at the last mark: into all that stands before it and what
/// follows.
pub proof fn the_last_mark_cuts(a: Seq<char>, c: char, b: Seq<char>)
    requires
        !b.contains(c),
    ensures
        cut_last(a + seq![c] + b, c) == Some((a, b)),
        cut_last(b, c) is None,
{
    let s = a + seq![c] + b;
    s.index_of_last_ensures(c);
    b.index_of_last_ensures(c);
    assert(s[a.len() as int] == c);
    assert(s.contains(c));
    let i = s.index_of_last(c).unwrap();
    if i > a.len() {
        assert(b[i - a.len() - 1] == s[i]);
        assert(b.contains(c));
    }
    assert(i == a.len());
    assert(s.take(i) =~= a);
    assert(s.skip(i + 1) =~= b);
}

/// A text has those texts in it that stand between two parts of it.
pub proof fn texts_stand_in_texts(a: Seq<char>, p: Seq<char>, b: Seq<char>, s: Seq<char>)
    ensures
        has_text(a + p + b, p),
        has_text(s, p) ==> exists|x: Seq<char>, y: Seq<char>| s == #[trigger] (x + p + y),
{
    let t = a + p + b;
    assert(t.subrange(a.len() as int, (a.len() + p.len()) as int) =~= p);
    assert(occurs_at(t, p, a.len() as int));
    if has_text(s, p) {
        let i = choose|i: int| occurs_at(s, p, i);
        let (x, y) = (s.take(i), s.skip(i + p.len()));
        assert(s =~= x + p + y) by {
            assert forall|j: int| 0 <= j < p.len() implies p[j] == s[i + j] by {
                assert(s.subrange(i, i + p.len())[j] == s[i + j]);
            }
        }
    }
}

/// Trimming takes white space away at both ends, all of it, and nothing else.
pub proof fn trimming_takes_space_away(s: Seq<char>)
    ensures
        exists|i: int, j: int|
            {
                &&& 0 <= i <= j <= s.len()
                &&& trimmed(s) == #[trigger] s.subrange(i, j)
                &&& forall|k: int| 0 <= k < i ==> crate::text::is_space(#[trigger] s[k])
                &&& forall|k: int| j <= k < s.len() ==> crate::text::is_space(#[trigger] s[k])
            },
        trimmed(s).len() > 0 ==> !crate::text::is_space(trimmed(s)[0])
            && !crate::text::is_space(trimmed(s).last()),
{
    let i = front(s);
    let t = trim_front(s);
    let j = back(t);
    assert(trimmed(s) =~= s.subrange(i, i + j));
    assert forall|k: int| i + j <= k < s.len() implies crate::text::is_space(#[trigger] s[k]) by {
        assert(t[k - i] == s[k]);
    }
    if j > 0 {
        assert(trimmed(s)[0] == t[0]);
    }
}

proof fn front(s: Seq<char>) -> (i: int)
    ensures
        0 <= i <= s.len(),
        trim_front(s) == s.skip(i),
        forall|k: int| 0 <= k < i ==> crate::text::is_space(#[trigger] s[k]),
        i < s.len() ==> !crate::text::is_space(s[i]),
    decreases s.len(),
{
    if s.len() > 0 && crate::text::is_space(s[0]) {
        let i = front(s.drop_first()) + 1;
        assert(s.drop_first().skip(i - 1) =~= s.skip(i));
        assert forall|k: int| 0 <= k < i implies crate::text::is_space(#[trigger] s[k]) by {
            if k > 0 {
                assert(s.drop_first()[k - 1] == s[k]);
            }
        }
        i
    } else {
        assert(s.skip(0) =~= s);
        0
    }
}

proof fn back(s: Seq<char>) -> (j: int)
    ensures
        0 <= j <= s.len(),
        trim_back(s) == s.take(j),
        forall|k: int| j <= k < s.len() ==> crate::text::is_space(#[trigger] s[k]),
        j > 0 ==> !crate::text::is_space(s[j - 1]),
    decreases s.len(),
{
    if s.len() > 0 && crate::text::is_space(s.last()) {
        let j = back(s.drop_last());
        assert(s.drop_last().take(j) =~= s.take(j));
        assert forall|k: int| j <= k < s.len() implies crate::text::is_space(#[trigger] s[k]) by {
            if k < s.len() - 1 {
                assert(s.drop_last()[k] == s[k]);
            }
        }
        j
    } else {
        assert(s.take(s.len() as int) =~= s);
        s.len() as int
    }
}

/// The lines of a text are what stands before each line feed and what is left
/// behind the last one.
pub proof fn lines_end_at_line_feeds(line: Seq<char>, rest: Seq<char>)
    requires
        !line.contains('\n'),
    ensures
        line.len() > 0 && line.last() == '\r' ==> lines_of(line + seq!['\n'] + rest) == seq![
            line.drop_last(),
        ] + lines_of(rest),
        line.len() == 0 || line.last() != '\r' ==> lines_of(line + seq!['\n'] + rest) == seq![line]
            + lines_of(rest),
        lines_of(line) == if line.len() == 0 {
            seq![]
        } else {
            seq![line]
        },
{
    the_first_mark_cuts(line, '\n', rest);
    let s = line + seq!['\n'] + rest;
    s.index_of_first_ensures('\n');
    line.index_of_first_ensures('\n');
}

/// The first line of a text is what stands before its first line feed, or all
/// of it.
pub proof fn the_first_line_comes_first(line: Seq<char>, rest: Seq<char>)
    requires
        !line.contains('\n'),
    ensures
        line.len() == 0 || line.last() != '\r' ==> crate::text::first_line_of(
            line + seq!['\n'] + rest,
        ) == line,
        crate::text::first_line_of(line) == line,
{
    lines_end_at_line_feeds(line, rest);
    if line.len() == 0 {
        assert(line =~= seq![]);
    }
}

/// Texts are joined in order, with the separator between each two.
pub proof fn joining_separates(v: Seq<Seq<char>>, more: Seq<char>, sep: Seq<char>)
    ensures
        joined(seq![], sep).len() == 0,
        joined(seq![more], sep) == more,
        v.len() > 0 ==> joined(v.push(more), sep) == joined(v, sep) + sep + more,
{
    if v.len() > 0 {
        assert(v.push(more).drop_last() =~= v);
    }
}

/// Replacing a mark changes it wherever it stands, and nothing else.
pub proof fn marks_are_replaced(s: Seq<char>, from: char, to: char)
    ensures
        replaced(s, from, to).len() == s.len(),
        forall|i: int|
            0 <= i < s.len() ==> #[trigger] replaced(s, from, to)[i] == if s[i] == from {
                to
            } else {
                s[i]
            },
{
}

/// Replacing the first mark changes no other.
pub proof fn the_first_mark_is_replaced(a: Seq<char>, b: Seq<char>, from: char, to: char)
    requires
        !a.contains(from),
    ensures
        replaced_first(a + seq![from] + b, from, to) == a + seq![to] + b,
        replaced_first(a, from, to) == a,
{
    the_first_mark_cuts(a, from, b);
    let s = a + seq![from] + b;
    s.index_of_first_ensures(from);
    a.index_of_first_ensures(from);
    let i = s.index_of_first(from).unwrap();
    assert(s.take(i).len() == i);
    assert(i == a.len());
    assert(s.update(i, to) =~= a + seq![to] + b);
}

/// Capital letters become the small ones, and nothing else changes.
pub proof fn capitals_become_small(s: Seq<char>, i: int)
    requires
        0 <= i < s.len(),
    ensures
        ascii_lowercase(s).len() == s.len(),
        'A' <= s[i] <= 'Z' ==> ascii_lowercase(s)[i] as int == s[i] as int + 32,
        !('A' <= s[i] <= 'Z') ==> ascii_lowercase(s)[i] == s[i],
{
}

/// Texts are ordered by the first place at which they differ, and a text comes
/// before those that go on where it ends.
pub proof fn texts_are_ordered(a: Seq<char>, b: Seq<char>, i: int)
    requires
        0 <= i <= a.len(),
        i <= b.len(),
        a.take(i) == b.take(i),
    ensures
        i == a.len() ==> text_le(a, b),
        i == b.len() < a.len() ==> !text_le(a, b),
        i < a.len() && i < b.len() && a[i] != b[i] ==> (text_le(a, b) <==> (a[i] as int)
            < b[i] as int),
    decreases i,
{
    if i > 0 {
        assert(a[0] == a.take(i)[0]);
        assert(b[0] == b.take(i)[0]);
        let (c, d) = (a.drop_first(), b.drop_first());
        assert(c.take(i - 1) =~= a.take(i).drop_first());
        assert(d.take(i - 1) =~= b.take(i).drop_first());
        texts_are_ordered(c, d, i - 1);
        if i < a.len() && i < b.len() {
            assert(c[i - 1] == a[i] && d[i - 1] == b[i]);
        }
    }
}

// ── Paths ────────────────────────────────

/// A name below a directory: one separator stands between them, and a name
/// that is a path from the root stands for itself.
pub proof fn names_stand_below_directories(dir: Seq<char>, name: Seq<char>)
    ensures
        name.len() > 0 && name[0] == '/' ==> joined_path(dir, name) == name,
        (name.len() == 0 || name[0] != '/') && dir.len() > 0 && dir.last() != '/' ==> joined_path(
            dir,
            name,
        ) == dir + seq!['/'] + name,
        (name.len() == 0 || name[0] != '/') && (dir.len() == 0 || dir.last() == '/')
            ==> joined_path(dir, name) == dir + name,
{
    assert(dir.push('/') + name =~= dir + seq!['/'] + name);
}

/// A name that can stand in a directory.
pub open spec fn is_name(name: Seq<char>) -> bool {
    &&& name.len() > 0
    &&& !name.contains('/')
    &&& name != seq!['.']
    &&& name != seq!['.', '.']
}

proof fn a_name_ends_its_path(dir: Seq<char>, name: Seq<char>)
    requires
        is_name(name),
    ensures
        path_body(dir + seq!['/'] + name) == dir + seq!['/'] + name,
        path_body(name) == name,
{
    let s = dir + seq!['/'] + name;
    assert(s.last() == name.last());
    assert(name.last() != '/') by {
        if name.last() == '/' {
            assert(name.contains('/'));
        }
    }
    if name.last() == '.' {
        if name.len() == 1 {
            assert(name =~= seq!['.']);
        } else {
            assert(s[s.len() - 2] == name[name.len() - 2]);
            if name[name.len() - 2] == '/' {
                assert(name.contains('/'));
            }
        }
    }
}

/// A path below a directory ends with its name.
pub proof fn paths_end_with_their_name(dir: Seq<char>, name: Seq<char>)
    requires
        is_name(name),
    ensures
        file_name_of(dir + seq!['/'] + name) == Some(name),
        file_name_of(name) == Some(name),
{
    a_name_ends_its_path(dir, name);
    the_last_mark_cuts(dir, '/', name);
}

/// The extension of a path is what follows the last dot of its name, if that
/// stands behind something.
pub proof fn extensions_follow_the_last_dot(dir: Seq<char>, stem: Seq<char>, ext: Seq<char>)
    requires
        stem.len() > 0,
        is_name(stem + seq!['.'] + ext),
        !ext.contains('.'),
    ensures
        extension_of(dir + seq!['/'] + stem + seq!['.'] + ext) == Some(ext),
{
    let name = stem + seq!['.'] + ext;
    paths_end_with_their_name(dir, name);
    the_last_mark_cuts(stem, '.', ext);
    assert(dir + seq!['/'] + stem + seq!['.'] + ext =~= dir + seq!['/'] + name);
}

/// The extension of a path is put in place of the old one, behind the name
/// without it; an empty one only goes away.
pub proof fn extensions_are_replaced(
    dir: Seq<char>,
    stem: Seq<char>,
    ext: Seq<char>,
    new: Seq<char>,
)
    requires
        stem.len() > 0,
        is_name(stem + seq!['.'] + ext),
        !ext.contains('.'),
    ensures
        new.len() > 0 ==> with_extension_of(dir + seq!['/'] + stem + seq!['.'] + ext, new) == dir
            + seq!['/'] + stem + seq!['.'] + new,
        new.len() == 0 ==> with_extension_of(dir + seq!['/'] + stem + seq!['.'] + ext, new) == dir
            + seq!['/'] + stem,
{
    let name = stem + seq!['.'] + ext;
    let s = dir + seq!['/'] + name;
    paths_end_with_their_name(dir, name);
    a_name_ends_its_path(dir, name);
    the_last_mark_cuts(stem, '.', ext);
    assert(dir + seq!['/'] + stem + seq!['.'] + ext =~= s);
    let kept = s.take(s.len() - name.len() + stem.len());
    assert(name.take(name.len() - ext.len() - 1) =~= stem);
    assert(kept =~= dir + seq!['/'] + stem);
    assert(kept.push('.') + new =~= dir + seq!['/'] + stem + seq!['.'] + new);
}

/// A name without a dot gets the extension behind it.
pub proof fn extensions_are_added(dir: Seq<char>, name: Seq<char>, new: Seq<char>)
    requires
        is_name(name),
        !name.contains('.'),
        new.len() > 0,
    ensures
        extension_of(dir + seq!['/'] + name) is None,
        with_extension_of(dir + seq!['/'] + name, new) == dir + seq!['/'] + name + seq!['.'] + new,
{
    let s = dir + seq!['/'] + name;
    paths_end_with_their_name(dir, name);
    a_name_ends_its_path(dir, name);
    the_last_mark_cuts(seq![], '.', name);
    assert(s.take(s.len() - name.len() + name.len()) =~= s);
    assert(s.push('.') + new =~= dir + seq!['/'] + name + seq!['.'] + new);
}

/// The same path is meant with a separator at its end as without one.
pub proof fn separators_at_the_end_do_not_count(s: Seq<char>)
    requires
        s.len() > 0,
    ensures
        same_path(s, s.push('/')),
{
    let t = s.push('/');
    one_more_separator(s, true);
    assert(t[0] == s[0]);
}

proof fn one_more_separator(s: Seq<char>, first: bool)
    ensures
        crate::paths::parts_from(s.push('/'), first) == crate::paths::parts_from(s, first),
    decreases s.len(),
{
    let t = s.push('/');
    s.index_of_first_ensures('/');
    t.index_of_first_ensures('/');
    assert(t[s.len() as int] == '/');
    assert(t.contains('/'));
    let j = t.index_of_first('/').unwrap();
    match s.index_of_first('/') {
        Some(i) => {
            assert(t[i] == '/');
            if j < i {
                assert(s[j] == t[j]);
            }
            if i < j {
                assert(t[i] != '/');
            }
            assert(t.take(i) =~= s.take(i));
            assert(t.skip(i + 1) =~= s.skip(i + 1).push('/'));
            one_more_separator(s.skip(i + 1), false);
        },
        None => {
            if j < s.len() {
                assert(s[j] == t[j]);
                assert(s.contains('/'));
            }
            assert(t.take(j) =~= s);
            assert(t.skip(j + 1) =~= seq![]);
            let e = Seq::<char>::empty();
            e.index_of_first_ensures('/');
            assert(crate::paths::parts_from(e, false) =~= seq![]);
            assert(crate::paths::piece_parts(s, first) + crate::paths::parts_from(e, false)
                =~= crate::paths::piece_parts(s, first));
        },
    }
}

} // verus!
