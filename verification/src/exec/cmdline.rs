//! Building argument lists piece by piece, each piece stated over `Seq`s of characters.
use vstd::prelude::*;
use crate::text::{concat, owned, strs};

verus! {

/// `s` when `b` holds, else nothing.
pub open spec fn only_if(b: bool, s: Seq<Seq<char>>) -> Seq<Seq<char>> {
    if b { s } else { Seq::empty() }
}

/// Each item with `p` in front of it.
pub open spec fn prefixed(p: Seq<char>, xs: Seq<Seq<char>>) -> Seq<Seq<char>> {
    xs.map_values(|x: Seq<char>| p + x)
}

/// Appends `s`.
pub fn push1(v: &mut Vec<String>, s: &str)
    ensures
        strs(final(v)@) == strs(old(v)@) + seq![s@],
{
    let ghost before = v@;
    v.push(owned(s));
    assert(strs(v@) =~= strs(before) + seq![s@]);
}

/// Appends `s`, taken over.
pub fn push_string(v: &mut Vec<String>, s: String)
    ensures
        strs(final(v)@) == strs(old(v)@) + seq![s@],
{
    let ghost before = v@;
    let ghost t = s@;
    v.push(s);
    assert(strs(v@) =~= strs(before) + seq![t]);
}

/// Appends `p` followed by `s`, as one argument.
pub fn push_joined(v: &mut Vec<String>, p: &str, s: &str)
    ensures
        strs(final(v)@) == strs(old(v)@) + seq![p@ + s@],
{
    push_string(v, concat(p, s));
}

/// Appends a copy of each of `xs`.
pub fn push_all(v: &mut Vec<String>, xs: &Vec<String>)
    ensures
        strs(final(v)@) == strs(old(v)@) + strs(xs@),
{
    let ghost before = strs(v@);
    let mut i: usize = 0;
    while i < xs.len()
        invariant
            i <= xs@.len(),
            strs(v@) == before + strs(xs@).take(i as int),
        decreases xs@.len() - i,
    {
        push1(v, xs[i].as_str());
        assert(strs(xs@).take(i + 1) =~= strs(xs@).take(i as int).push(xs@[i as int]@));
        assert(before + strs(xs@).take(i + 1) =~= (before + strs(xs@).take(i as int)) + seq![
            xs@[i as int]@,
        ]);
        i = i + 1;
    }
    assert(strs(xs@).take(xs@.len() as int) =~= strs(xs@));
}

/// Appends `s` when `b` holds.
pub fn push_when(v: &mut Vec<String>, b: bool, s: &str)
    ensures
        strs(final(v)@) == strs(old(v)@) + only_if(b, seq![s@]),
{
    if b {
        push1(v, s);
    } else {
        assert(strs(v@) + Seq::<Seq<char>>::empty() =~= strs(v@));
    }
}

/// Moves the arguments of `seg` to the end of `v`.
pub fn push_seg(v: &mut Vec<String>, seg: Vec<String>)
    ensures
        strs(final(v)@) == strs(old(v)@) + strs(seg@),
{
    let mut seg = seg;
    let ghost a = v@;
    let ghost b = seg@;
    v.append(&mut seg);
    assert(strs(v@) =~= strs(a) + strs(b));
}

/// A list holding `s` alone.
pub fn single(s: &str) -> (res: Vec<String>)
    ensures
        strs(res@) == seq![s@],
{
    let mut v: Vec<String> = Vec::new();
    push1(&mut v, s);
    assert(strs(v@) =~= seq![s@]);
    v
}

/// A list holding nothing.
pub fn none_of() -> (res: Vec<String>)
    ensures
        strs(res@) == Seq::<Seq<char>>::empty(),
{
    let v: Vec<String> = Vec::new();
    assert(strs(v@) =~= Seq::<Seq<char>>::empty());
    v
}

/// A copy of `xs`.
pub fn copy_of(xs: &Vec<String>) -> (res: Vec<String>)
    ensures
        strs(res@) == strs(xs@),
{
    let mut v = none_of();
    push_all(&mut v, xs);
    assert(strs(v@) =~= strs(xs@));
    v
}

/// Appends each of `xs` with `p` in front of it.
pub fn push_prefixed(v: &mut Vec<String>, p: &str, xs: &Vec<String>)
    ensures
        strs(final(v)@) == strs(old(v)@) + prefixed(p@, strs(xs@)),
{
    let ghost before = strs(v@);
    let ghost all = prefixed(p@, strs(xs@));
    let mut i: usize = 0;
    while i < xs.len()
        invariant
            i <= xs@.len(),
            all == prefixed(p@, strs(xs@)),
            strs(v@) == before + all.take(i as int),
        decreases xs@.len() - i,
    {
        push_joined(v, p, xs[i].as_str());
        assert(all.take(i + 1) =~= all.take(i as int).push(p@ + xs@[i as int]@));
        assert(before + all.take(i + 1) =~= (before + all.take(i as int)) + seq![
            p@ + xs@[i as int]@,
        ]);
        i = i + 1;
    }
    assert(all.take(xs@.len() as int) =~= all);
}

/// No item with `p` in front of it is `w` when the two differ in their second character.
pub proof fn lemma_prefixed_lacks(p: Seq<char>, xs: Seq<Seq<char>>, w: Seq<char>)
    requires
        p.len() >= 2,
        w.len() >= 2,
        p[1] != w[1],
    ensures
        !prefixed(p, xs).contains(w),
{
    if prefixed(p, xs).contains(w) {
        let j = choose|j: int| 0 <= j < prefixed(p, xs).len() && prefixed(p, xs)[j] == w;
        assert((p + xs[j])[1] == p[1]);
    }
}

/// A list of one item lacks anything other than that item.
pub proof fn lemma_single_lacks(x: Seq<char>, w: Seq<char>)
    requires
        x != w,
    ensures
        !seq![x].contains(w),
        forall|b: bool| !#[trigger] only_if(b, seq![x]).contains(w),
{
    assert(seq![x][0] == x);
    assert(Seq::<Seq<char>>::empty().len() == 0);
}

} // verus!
