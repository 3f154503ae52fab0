//! Paths as text, joined and re-extended the way the standard library's `Path` does for
//! the relative paths a project uses: `/` separates components everywhere, and `\` as
//! well on Windows, which also joins with `\`.
use vstd::prelude::*;
use crate::config::Platform;
use crate::text::{chars_of, concat, concat3, owned, string_of};

verus! {

pub open spec fn is_sep(c: char, host: Platform) -> bool {
    c == '/' || (host == Platform::Windows && c == '\\')
}

/// The separator a host joins components with.
pub open spec fn sep_of(host: Platform) -> Seq<char> {
    if host == Platform::Windows { "\\"@ } else { "/"@ }
}

/// `b` appended to `a` as a further component; a `b` that starts at the root replaces
/// `a`.
pub open spec fn path_join(host: Platform, a: Seq<char>, b: Seq<char>) -> Seq<char> {
    if b.len() > 0 && is_sep(b[0], host) {
        b
    } else if a.len() == 0 || is_sep(a.last(), host) {
        a + b
    } else {
        a + sep_of(host) + b
    }
}

/// The index where the last component of `p` starts.
pub open spec fn name_start(p: Seq<char>, host: Platform) -> int
    decreases p.len(),
{
    if p.len() == 0 {
        0
    } else if is_sep(p.last(), host) {
        p.len() as int
    } else {
        name_start(p.drop_last(), host)
    }
}

/// The index of the last dot in `p` at or after `from`, if any.
pub open spec fn last_dot(p: Seq<char>, from: int) -> Option<int>
    decreases p.len(),
{
    if p.len() == 0 || p.len() <= from {
        None
    } else if p.last() == '.' {
        Some(p.len() - 1)
    } else {
        last_dot(p.drop_last(), from)
    }
}

/// `p` with the extension of its last component set to `ext`: a dot that is not the
/// first character of the component starts the old extension, which is replaced;
/// otherwise `ext` is appended after a dot.
pub open spec fn path_with_ext(host: Platform, p: Seq<char>, ext: Seq<char>) -> Seq<char> {
    let s = name_start(p, host);
    match last_dot(p, s) {
        Some(d) => if d > s {
            p.take(d) + "."@ + ext
        } else {
            p + "."@ + ext
        },
        None => p + "."@ + ext,
    }
}

/// `p` below the directory `dir`, when it starts with `dir` and a separator.
pub open spec fn below(host: Platform, p: Seq<char>, dir: Seq<char>) -> bool {
    p.len() > dir.len() && p.take(dir.len() as int) == dir && is_sep(p[dir.len() as int], host)
}

/// What follows `dir` and the separator after it.
pub open spec fn rest_below(p: Seq<char>, dir: Seq<char>) -> Seq<char> {
    p.skip(dir.len() as int + 1)
}

/// The last component starts after the last separator and holds none.
pub proof fn lemma_name_start(p: Seq<char>, host: Platform)
    ensures
        0 <= name_start(p, host) <= p.len(),
        forall|i: int| name_start(p, host) <= i < p.len() ==> !is_sep(#[trigger] p[i], host),
        name_start(p, host) > 0 ==> is_sep(p[name_start(p, host) - 1], host),
    decreases p.len(),
{
    if p.len() > 0 && !is_sep(p.last(), host) {
        lemma_name_start(p.drop_last(), host);
        assert forall|i: int| name_start(p, host) <= i < p.len() implies !is_sep(
            #[trigger] p[i],
            host,
        ) by {
            if i < p.len() - 1 {
                assert(p[i] == p.drop_last()[i]);
            }
        }
        if name_start(p, host) > 0 {
            assert(p[name_start(p, host) - 1] == p.drop_last()[name_start(p, host) - 1]);
        }
    }
}

/// The last dot found is a dot with none after it; when none is found there is none.
pub proof fn lemma_last_dot(p: Seq<char>, from: int)
    requires
        0 <= from,
    ensures
        last_dot(p, from) matches Some(d) ==> from <= d < p.len() && p[d] == '.' && forall|
            i: int,
        |
            d < i < p.len() ==> #[trigger] p[i] != '.',
        last_dot(p, from) is None ==> forall|i: int| from <= i < p.len() ==> #[trigger] p[i] != '.',
    decreases p.len(),
{
    if p.len() > 0 && p.len() > from && p.last() != '.' {
        lemma_last_dot(p.drop_last(), from);
        assert forall|i: int| from <= i < p.len() - 1 implies #[trigger] p[i] == p.drop_last()[i] by {}
    }
}

/// `p` without the separators it ends with.
pub open spec fn trim_end_seps(p: Seq<char>, host: Platform) -> Seq<char>
    decreases p.len(),
{
    if p.len() > 0 && is_sep(p.last(), host) {
        trim_end_seps(p.drop_last(), host)
    } else {
        p
    }
}

/// The last component of `p`.
pub open spec fn last_component(p: Seq<char>, host: Platform) -> Seq<char> {
    let q = trim_end_seps(p, host);
    q.skip(name_start(q, host))
}

/// The stem of a file name: the name up to its last dot, unless that dot begins the
/// name or there is none.
pub open spec fn stem_of(name: Seq<char>) -> Seq<char> {
    match last_dot(name, 0) {
        Some(d) => if d > 0 { name.take(d) } else { name },
        None => name,
    }
}

/// A path whose last component names a file: neither empty nor `.` nor `..`.
pub open spec fn names_file(p: Seq<char>, host: Platform) -> bool {
    let n = last_component(p, host);
    n.len() > 0 && n != "."@ && n != ".."@
}

/// Where the last component of the characters `v` starts and ends.
fn component_bounds(v: &Vec<char>, host: Platform) -> (res: (usize, usize))
    ensures
        res.0 <= res.1 <= v@.len(),
        v@.subrange(res.0 as int, res.1 as int) == last_component(v@, host),
{
    let ghost p = v@;
    let mut e: usize = v.len();
    assert(p.take(v@.len() as int) =~= p);
    while e > 0 && sep_char_at(v, e - 1, host)
        invariant
            v@ == p,
            e <= v@.len(),
            trim_end_seps(p, host) == trim_end_seps(p.take(e as int), host),
        decreases e,
    {
        assert(p.take(e as int).drop_last() =~= p.take(e - 1));
        e = e - 1;
    }
    let ghost q = p.take(e as int);
    assert(trim_end_seps(q, host) == q) by {
        if e > 0 {
            assert(q.last() == v@[e - 1]);
        }
    }
    let mut s: usize = e;
    assert(q.take(e as int) =~= q);
    while s > 0 && !sep_char_at(v, s - 1, host)
        invariant
            v@ == p,
            s <= e <= v@.len(),
            q == p.take(e as int),
            name_start(q, host) == name_start(q.take(s as int), host),
        decreases s,
    {
        assert(q.take(s as int).drop_last() =~= q.take(s - 1));
        s = s - 1;
    }
    assert(name_start(q.take(s as int), host) == s as int) by {
        if s > 0 {
            assert(q.take(s as int).last() == v@[s - 1]);
        }
    }
    assert(q.skip(s as int) =~= p.subrange(s as int, e as int));
    (s, e)
}

/// Whether the last component of `p` names a file: neither empty nor `.` nor `..`.
pub fn is_file_name(p: &str, host: Platform) -> (res: bool)
    ensures
        res == names_file(p@, host),
{
    proof {
        reveal_strlit(".");
        reveal_strlit("..");
    }
    let v = chars_of(p);
    let (s, e) = component_bounds(&v, host);
    let ghost n = last_component(p@, host);
    assert(n.len() == e - s);
    if e == s {
        false
    } else if e - s == 1 && v[s] == '.' {
        assert(n[0] == v@[s as int]);
        assert(n =~= "."@);
        false
    } else if e - s == 2 && v[s] == '.' && v[s + 1] == '.' {
        assert(n[0] == v@[s as int]);
        assert(n[1] == v@[s + 1]);
        assert(n =~= ".."@);
        false
    } else {
        assert(n != "."@) by {
            if n.len() == 1 {
                assert(n[0] == v@[s as int]);
            }
        }
        assert(n != ".."@) by {
            if n.len() == 2 {
                assert(n[0] == v@[s as int]);
                assert(n[1] == v@[s + 1]);
            }
        }
        true
    }
}

/// Whether `p` lies below the directory `dir`: it starts with `dir` and a separator.
pub fn is_below(p: &str, dir: &str, host: Platform) -> (res: bool)
    ensures
        res == below(host, p@, dir@),
{
    let v = chars_of(p);
    let w = chars_of(dir);
    if v.len() <= w.len() {
        return false;
    }
    let mut i: usize = 0;
    while i < w.len()
        invariant
            v@ == p@,
            w@ == dir@,
            w@.len() < v@.len(),
            i <= w@.len(),
            forall|j: int| 0 <= j < i ==> v@[j] == w@[j],
        decreases w@.len() - i,
    {
        if v[i] != w[i] {
            assert(p@.take(dir@.len() as int)[i as int] != dir@[i as int]);
            return false;
        }
        i = i + 1;
    }
    assert(p@.take(dir@.len() as int) =~= dir@);
    sep_char_at(&v, w.len(), host)
}

/// The stem of the last component of `p`, as `Path::file_stem` gives it.
pub fn file_stem(p: &str, host: Platform) -> (res: String)
    requires
        names_file(p@, host),
    ensures
        res@ == stem_of(last_component(p@, host)),
{
    let v = chars_of(p);
    let (s, e) = component_bounds(&v, host);
    let ghost n = p@.subrange(s as int, e as int);
    let mut d: usize = e;
    assert(n.take((e - s) as int) =~= n);
    while d > s && v[d - 1] != '.'
        invariant
            v@ == p@,
            s <= d <= e <= v@.len(),
            n == p@.subrange(s as int, e as int),
            last_dot(n, 0) == last_dot(n.take(d - s), 0),
        decreases d,
    {
        assert(n.take(d - s).drop_last() =~= n.take(d - s - 1));
        d = d - 1;
    }
    if d > s {
        assert(n.take(d - s).last() == '.');
        assert(last_dot(n.take(d - s), 0) == Some((d - s - 1) as int));
        if d - 1 > s {
            let r = string_of(&v, s, d - 1);
            assert(r@ =~= n.take(d - s - 1));
            r
        } else {
            let r = string_of(&v, s, e);
            assert(r@ =~= n);
            r
        }
    } else {
        assert(last_dot(n.take(0), 0) is None);
        let r = string_of(&v, s, e);
        assert(r@ =~= n);
        r
    }
}

fn sep_char_at(v: &Vec<char>, i: usize, host: Platform) -> (res: bool)
    requires
        i < v@.len(),
    ensures
        res == is_sep(v@[i as int], host),
{
    v[i] == '/' || (host == Platform::Windows && v[i] == '\\')
}

/// Joins `b` to `a` as a further component.
pub fn join(host: Platform, a: &str, b: &str) -> (res: String)
    ensures
        res@ == path_join(host, a@, b@),
{
    let av = chars_of(a);
    let bv = chars_of(b);
    if bv.len() > 0 && sep_char_at(&bv, 0, host) {
        owned(b)
    } else if av.len() == 0 || sep_char_at(&av, av.len() - 1, host) {
        concat(a, b)
    } else if host == Platform::Windows {
        concat3(a, "\\", b)
    } else {
        concat3(a, "/", b)
    }
}

/// Sets the extension of the last component of `p`.
pub fn with_extension(host: Platform, p: &str, ext: &str) -> (res: String)
    ensures
        res@ == path_with_ext(host, p@, ext@),
{
    let v = chars_of(p);
    assert(p@.take(v@.len() as int) =~= p@);
    let mut s: usize = v.len();
    while s > 0 && !sep_char_at(&v, s - 1, host)
        invariant
            v@ == p@,
            s <= v@.len(),
            name_start(p@, host) == name_start(p@.take(s as int), host),
        decreases s,
    {
        assert(p@.take(s as int).drop_last() =~= p@.take(s - 1));
        s = s - 1;
    }
    assert(name_start(p@.take(s as int), host) == s as int) by {
        if s > 0 {
            assert(p@.take(s as int).last() == v@[s - 1]);
        }
    }
    let mut d: usize = v.len();
    while d > s && v[d - 1] != '.'
        invariant
            v@ == p@,
            s <= d <= v@.len(),
            last_dot(p@, s as int) == last_dot(p@.take(d as int), s as int),
        decreases d,
    {
        assert(p@.take(d as int).drop_last() =~= p@.take(d - 1));
        d = d - 1;
    }
    assert(p@.take(v@.len() as int) =~= p@);
    if d > s {
        assert(last_dot(p@.take(d as int), s as int) == Some((d - 1) as int));
        if d - 1 > s {
            let stem = string_of(&v, 0, d - 1);
            concat3(stem.as_str(), ".", ext)
        } else {
            concat3(p, ".", ext)
        }
    } else {
        concat3(p, ".", ext)
    }
}

/// What follows the directory `dir` in `p`.
pub fn strip_dir(p: &str, dir: &str, host: Platform) -> (res: String)
    requires
        below(host, p@, dir@),
    ensures
        res@ == rest_below(p@, dir@),
{
    let v = chars_of(p);
    let k = dir.unicode_len();
    let n = v.len();
    assert(k < n);
    string_of(&v, k + 1, n)
}

} // verus!
