//! Which parts of a build are out of date, decided from the modification times of its
//! files.
use vstd::prelude::*;
use crate::config::Platform;
use crate::exec::toolchain::msvc_compatible;
use crate::exec::{BuildInfo, BuildInfoView};
use crate::paths::{below, is_below, is_sep, join, path_join, path_with_ext, rest_below, strip_dir, with_extension};
use crate::text::{chars_of, concat};


verus! {

/// How much of a build has to run.
#[derive(Debug, Clone, PartialEq, Eq)]
pub enum BuildLevel {
    UpToDate,
    LinkOnly,
    CompileAndLink(Vec<(String, String)>),
}

pub enum BuildLevelView {
    UpToDate,
    LinkOnly,
    CompileAndLink(Seq<(Seq<char>, Seq<char>)>),
}

pub open spec fn pairs_view(v: Seq<(String, String)>) -> Seq<(Seq<char>, Seq<char>)> {
    v.map_values(|p: (String, String)| (p.0@, p.1@))
}

impl View for BuildLevel {
    type V = BuildLevelView;

    open spec fn view(&self) -> BuildLevelView {
        match self {
            BuildLevel::UpToDate => BuildLevelView::UpToDate,
            BuildLevel::LinkOnly => BuildLevelView::LinkOnly,
            BuildLevel::CompileAndLink(v) => BuildLevelView::CompileAndLink(pairs_view(v@)),
        }
    }
}

/// The modification times of a build's files, in one unit and from one origin: of the
/// output, if it exists; of each header, source and file that forces a relink, in the
/// order the build lists them; and of each source's object, if it exists.
#[derive(Debug, Clone, PartialEq, Eq)]
pub struct Stamps {
    pub outfile: Option<u64>,
    pub headers: Vec<u64>,
    pub sources: Vec<u64>,
    pub objects: Vec<Option<u64>>,
    pub relink: Vec<u64>,
}

/// The object a source under `src` compiles to: the same path under the `obj` directory
/// of the output directory, with the toolchain's object extension.
pub open spec fn object_of(host: Platform, src: Seq<char>, odir: Seq<char>, msvc: bool) -> Seq<char> {
    path_with_ext(
        host,
        path_join(host, path_join(host, odir, "obj"@), rest_below(src, "src"@)),
        if msvc { "obj"@ } else { "o"@ },
    )
}

/// The object file a source compiles to.
pub fn transform_file(path: &str, odir: &str, msvc: bool, host: Platform) -> (res: String)
    requires
        below(host, path@, "src"@),
    ensures
        res@ == object_of(host, path@, odir@, msvc),
{
    let obj = join(host, odir, "obj");
    let rest = strip_dir(path, "src", host);
    let file = join(host, obj.as_str(), rest.as_str());
    with_extension(host, file.as_str(), if msvc { "obj" } else { "o" })
}

/// Which sources a rule picks: those newer than a time, those newer than their object
/// (or without one), or all.
/// Whether `s` ends with `t`.
pub open spec fn has_suffix(s: Seq<char>, t: Seq<char>) -> bool {
    t.len() <= s.len() && s.skip(s.len() - t.len()) == t
}

fn ends_with(v: &Vec<char>, t: &str) -> (res: bool)
    ensures
        res == has_suffix(v@, t@),
{
    let w = chars_of(t);
    if w.len() > v.len() {
        return false;
    }
    let k = v.len() - w.len();
    let mut i: usize = 0;
    while i < w.len()
        invariant
            w@ == t@,
            k + w@.len() == v@.len(),
            v@.len() == v.len(),
            i <= w@.len(),
            forall|j: int| 0 <= j < i ==> v@[k + j] == w@[j],
        decreases w@.len() - i,
    {
        if v[k + i] != w[i] {
            assert(v@.skip(k as int)[i as int] != t@[i as int]);
            return false;
        }
        i = i + 1;
    }
    assert(v@.skip(k as int) =~= t@);
    true
}

/// A file below `objdir` that holds a compiled source: its name has the extension
/// `obj_ext` after at least one other character, and it is not the object of a
/// precompiled header (named `<header>.h.<obj_ext>`).
pub open spec fn is_source_object(host: Platform, obj: Seq<char>, objdir: Seq<char>, obj_ext: Seq<char>) -> bool {
    &&& below(host, obj, objdir)
    &&& has_suffix(obj, "."@ + obj_ext)
    &&& obj.len() > obj_ext.len() + 1
    &&& !is_sep(obj[obj.len() - obj_ext.len() - 2], host)
    &&& !has_suffix(obj, ".h."@ + obj_ext)
}

/// The source an object below `objdir` was compiled from: the same path below `srcdir`,
/// with the source extension.
pub open spec fn source_of(host: Platform, obj: Seq<char>, objdir: Seq<char>, srcdir: Seq<char>, src_ext: Seq<char>) -> Seq<char> {
    path_with_ext(host, path_join(host, srcdir, rest_below(obj, objdir)), src_ext)
}

/// The source the file `obj` below `objdir` was compiled from, when it is the object of
/// a source; an object whose source is gone is stale and can be removed.
pub fn object_source(obj: &str, objdir: &str, srcdir: &str, obj_ext: &str, src_ext: &str, host: Platform) -> (res: Option<String>)
    ensures
        is_source_object(host, obj@, objdir@, obj_ext@) ==> (res matches Some(src) && src@
            == source_of(host, obj@, objdir@, srcdir@, src_ext@)),
        !is_source_object(host, obj@, objdir@, obj_ext@) ==> res is None,
{
    if !is_below(obj, objdir, host) {
        return None;
    }
    let v = chars_of(obj);
    let dotted = concat(".", obj_ext);
    let header = concat(".h.", obj_ext);
    let n = obj_ext.unicode_len();
    if !ends_with(&v, dotted.as_str()) || n >= v.len() || v.len() - n <= 1 {
        return None;
    }
    let c = v[v.len() - n - 2];
    let sep = c == '/' || (host == Platform::Windows && c == '\\');
    if sep || ends_with(&v, header.as_str()) {
        return None;
    }
    let rest = strip_dir(obj, objdir, host);
    let src = join(host, srcdir, rest.as_str());
    Some(with_extension(host, src.as_str(), src_ext))
}

pub enum Rule {
    NewerThan(u64),
    NewerThanObject,
    All,
}

pub open spec fn picks(st: Stamps, rule: Rule, k: int) -> bool {
    match rule {
        Rule::NewerThan(p) => st.sources@[k] > p,
        Rule::NewerThanObject => match st.objects@[k] {
            Some(o) => st.sources@[k] > o,
            None => true,
        },
        Rule::All => true,
    }
}

/// The first `n` sources the rule picks, each with its object, in order.
pub open spec fn picked(i: BuildInfoView, st: Stamps, rule: Rule, host: Platform, n: nat) -> Seq<(Seq<char>, Seq<char>)>
    decreases n,
{
    if n == 0 {
        Seq::empty()
    } else {
        let prev = picked(i, st, rule, host, (n - 1) as nat);
        let k = n - 1;
        if picks(st, rule, k) {
            prev.push(
                (i.sources[k], object_of(host, i.sources[k], i.outdir, msvc_compatible(i.toolchain))),
            )
        } else {
            prev
        }
    }
}

pub open spec fn any_newer(ts: Seq<u64>, pivot: u64) -> bool {
    exists|k: int| 0 <= k < ts.len() && #[trigger] ts[k] > pivot
}

/// How much to rebuild. With an output: every source when a header is newer than it,
/// else the sources newer than it, else just a relink when a relinked file is newer,
/// else nothing. Without an output: the sources newer than their objects, else a link.
pub open spec fn level_spec(i: BuildInfoView, st: Stamps, host: Platform) -> BuildLevelView {
    let n = i.sources.len();
    match st.outfile {
        Some(pivot) => if any_newer(st.headers@, pivot) {
            BuildLevelView::CompileAndLink(picked(i, st, Rule::All, host, n))
        } else {
            let pairs = picked(i, st, Rule::NewerThan(pivot), host, n);
            if pairs.len() == 0 {
                if any_newer(st.relink@, pivot) {
                    BuildLevelView::LinkOnly
                } else {
                    BuildLevelView::UpToDate
                }
            } else {
                BuildLevelView::CompileAndLink(pairs)
            }
        },
        None => {
            let pairs = picked(i, st, Rule::NewerThanObject, host, n);
            if pairs.len() == 0 {
                BuildLevelView::LinkOnly
            } else {
                BuildLevelView::CompileAndLink(pairs)
            }
        },
    }
}

/// The stamps describe the build's files, and every source lies under `src`.
pub open spec fn stamps_fit(i: BuildInfoView, st: Stamps, host: Platform) -> bool {
    &&& st.headers@.len() == i.headers.len()
    &&& st.sources@.len() == i.sources.len()
    &&& st.objects@.len() == i.sources.len()
    &&& st.relink@.len() == i.relink.len()
    &&& forall|k: int| 0 <= k < i.sources.len() ==> below(host, #[trigger] i.sources[k], "src"@)
}

fn any_newer_exec(ts: &Vec<u64>, pivot: u64) -> (res: bool)
    ensures
        res == any_newer(ts@, pivot),
{
    let mut k: usize = 0;
    while k < ts.len()
        invariant
            k <= ts@.len(),
            forall|j: int| 0 <= j < k ==> ts@[j] <= pivot,
        decreases ts@.len() - k,
    {
        if ts[k] > pivot {
            return true;
        }
        k = k + 1;
    }
    false
}

fn collect(info: &BuildInfo, st: &Stamps, rule: &Rule, host: Platform) -> (res: Vec<(String, String)>)
    requires
        stamps_fit(info@, *st, host),
    ensures
        pairs_view(res@) == picked(info@, *st, *rule, host, info@.sources.len()),
{
    let msvc = info.toolchain.is_msvc_compatible();
    let mut res: Vec<(String, String)> = Vec::new();
    let mut k: usize = 0;
    assert(pairs_view(res@) =~= Seq::<(Seq<char>, Seq<char>)>::empty());
    while k < info.sources.len()
        invariant
            stamps_fit(info@, *st, host),
            msvc == msvc_compatible(info.toolchain),
            k <= info.sources@.len(),
            pairs_view(res@) == picked(info@, *st, *rule, host, k as nat),
        decreases info.sources@.len() - k,
    {
        let pick = match rule {
            Rule::NewerThan(p) => st.sources[k] > *p,
            Rule::NewerThanObject => match st.objects[k] {
                Some(o) => st.sources[k] > o,
                None => true,
            },
            Rule::All => true,
        };
        assert(info@.sources[k as int] == info.sources@[k as int]@);
        if pick {
            let src = info.sources[k].as_str();
            let obj = transform_file(src, info.outdir.as_str(), msvc, host);
            let ghost before = res@;
            res.push((crate::text::owned(src), obj));
            assert(pairs_view(res@) =~= pairs_view(before).push((info@.sources[k as int], obj@)));
        }
        k = k + 1;
    }
    res
}

/// How much of the build has to run, given the times of its files on `host`.
pub fn get_build_level(info: &BuildInfo, stamps: &Stamps, host: Platform) -> (res: BuildLevel)
    requires
        stamps_fit(info@, *stamps, host),
    ensures
        res@ == level_spec(info@, *stamps, host),
{
    match stamps.outfile {
        Some(pivot) => {
            if any_newer_exec(&stamps.headers, pivot) {
                BuildLevel::CompileAndLink(collect(info, stamps, &Rule::All, host))
            } else {
                let pairs = collect(info, stamps, &Rule::NewerThan(pivot), host);
                if pairs.len() == 0 {
                    if any_newer_exec(&stamps.relink, pivot) {
                        BuildLevel::LinkOnly
                    } else {
                        BuildLevel::UpToDate
                    }
                } else {
                    BuildLevel::CompileAndLink(pairs)
                }
            }
        },
        None => {
            let pairs = collect(info, stamps, &Rule::NewerThanObject, host);
            if pairs.len() == 0 {
                BuildLevel::LinkOnly
            } else {
                BuildLevel::CompileAndLink(pairs)
            }
        },
    }
}


proof fn lemma_picked_none(i: BuildInfoView, st: Stamps, rule: Rule, host: Platform, n: nat)
    requires
        forall|k: int| 0 <= k < n ==> !#[trigger] picks(st, rule, k),
    ensures
        picked(i, st, rule, host, n).len() == 0,
    decreases n,
{
    if n > 0 {
        lemma_picked_none(i, st, rule, host, (n - 1) as nat);
    }
}

proof fn lemma_picked_all(i: BuildInfoView, st: Stamps, host: Platform, n: nat)
    ensures
        picked(i, st, Rule::All, host, n).len() == n,
        forall|k: int| 0 <= k < n ==> (#[trigger] picked(i, st, Rule::All, host, n)[k]).0 == i.sources[k],
    decreases n,
{
    if n > 0 {
        lemma_picked_all(i, st, host, (n - 1) as nat);
        let prev = picked(i, st, Rule::All, host, (n - 1) as nat);
        assert forall|k: int| 0 <= k < n implies (#[trigger] picked(i, st, Rule::All, host, n)[k]).0
            == i.sources[k] by {
            if k < n - 1 {
                assert(picked(i, st, Rule::All, host, n)[k] == prev[k]);
            }
        }
    }
}

/// An output no older than every header, source and relinked file is up to date.
pub proof fn law_up_to_date(i: BuildInfoView, st: Stamps, host: Platform, pivot: u64)
    requires
        st.outfile == Some(pivot),
        st.sources@.len() == i.sources.len(),
        forall|k: int| 0 <= k < st.headers@.len() ==> #[trigger] st.headers@[k] <= pivot,
        forall|k: int| 0 <= k < st.sources@.len() ==> #[trigger] st.sources@[k] <= pivot,
        forall|k: int| 0 <= k < st.relink@.len() ==> #[trigger] st.relink@[k] <= pivot,
    ensures
        level_spec(i, st, host) == BuildLevelView::UpToDate,
{
    lemma_picked_none(i, st, Rule::NewerThan(pivot), host, i.sources.len());
}

/// A header newer than the output recompiles every source, in the order the build
/// lists them.
pub proof fn law_header_change_recompiles_all(i: BuildInfoView, st: Stamps, host: Platform, pivot: u64, h: int)
    requires
        st.outfile == Some(pivot),
        0 <= h < st.headers@.len(),
        st.headers@[h] > pivot,
    ensures
        level_spec(i, st, host) matches BuildLevelView::CompileAndLink(pairs) && pairs.len()
            == i.sources.len() && forall|k: int| 0 <= k < pairs.len() ==> (#[trigger] pairs[k]).0
            == i.sources[k],
{
    lemma_picked_all(i, st, host, i.sources.len());
}

/// Without an output, a source with no object is always compiled.
pub proof fn law_missing_object_compiles(i: BuildInfoView, st: Stamps, host: Platform, k: int)
    requires
        st.outfile is None,
        0 <= k < i.sources.len(),
        st.objects@[k] is None,
    ensures
        level_spec(i, st, host) matches BuildLevelView::CompileAndLink(pairs) && pairs.contains(
            (i.sources[k], object_of(host, i.sources[k], i.outdir, msvc_compatible(i.toolchain))),
        ),
{
    lemma_picked_contains(i, st, Rule::NewerThanObject, host, i.sources.len(), k);
}

proof fn lemma_picked_contains(i: BuildInfoView, st: Stamps, rule: Rule, host: Platform, n: nat, k: int)
    requires
        0 <= k < n,
        picks(st, rule, k),
    ensures
        picked(i, st, rule, host, n).contains(
            (i.sources[k], object_of(host, i.sources[k], i.outdir, msvc_compatible(i.toolchain))),
        ),
    decreases n,
{
    let e = (i.sources[k], object_of(host, i.sources[k], i.outdir, msvc_compatible(i.toolchain)));
    let prev = picked(i, st, rule, host, (n - 1) as nat);
    if k == n - 1 {
        assert(picked(i, st, rule, host, n)[prev.len() as int] == e);
    } else {
        lemma_picked_contains(i, st, rule, host, (n - 1) as nat, k);
        let j = choose|j: int| 0 <= j < prev.len() && prev[j] == e;
        if picks(st, rule, n - 1) {
            assert(picked(i, st, rule, host, n)[j] == e);
        }
    }
}

/// Without an output, a source edited after its object was built is compiled again,
/// into that object.
pub proof fn law_stale_object_recompiles(i: BuildInfoView, st: Stamps, host: Platform, k: int, o: u64)
    requires
        st.outfile is None,
        0 <= k < i.sources.len(),
        st.objects@[k] == Some(o),
        st.sources@[k] > o,
    ensures
        level_spec(i, st, host) matches BuildLevelView::CompileAndLink(pairs) && pairs.contains(
            (i.sources[k], object_of(host, i.sources[k], i.outdir, msvc_compatible(i.toolchain))),
        ),
{
    lemma_picked_contains(i, st, Rule::NewerThanObject, host, i.sources.len(), k);
}

/// With an output and no header newer than it, a source edited after the output was
/// built is compiled again, into its object.
pub proof fn law_newer_source_recompiles(i: BuildInfoView, st: Stamps, host: Platform, pivot: u64, k: int)
    requires
        st.outfile == Some(pivot),
        0 <= k < i.sources.len(),
        st.sources@[k] > pivot,
    ensures
        level_spec(i, st, host) matches BuildLevelView::CompileAndLink(pairs) && pairs.contains(
            (i.sources[k], object_of(host, i.sources[k], i.outdir, msvc_compatible(i.toolchain))),
        ),
{
    let e = (i.sources[k], object_of(host, i.sources[k], i.outdir, msvc_compatible(i.toolchain)));
    if any_newer(st.headers@, pivot) {
        lemma_picked_contains(i, st, Rule::All, host, i.sources.len(), k);
    } else {
        lemma_picked_contains(i, st, Rule::NewerThan(pivot), host, i.sources.len(), k);
    }
}

/// The source at `k` with the object it compiles to.
pub open spec fn source_pair(i: BuildInfoView, host: Platform, k: int) -> (Seq<char>, Seq<char>) {
    (i.sources[k], object_of(host, i.sources[k], i.outdir, msvc_compatible(i.toolchain)))
}

/// `p` is a source among the first `n` that the rule picks, with its object.
pub open spec fn picked_pair(i: BuildInfoView, st: Stamps, rule: Rule, host: Platform, n: nat, p: (Seq<char>, Seq<char>)) -> bool {
    exists|k: int| 0 <= k < n && picks(st, rule, k) && p == #[trigger] source_pair(i, host, k)
}

/// Only sources the rule picks appear, each with its object.
proof fn lemma_picked_from(i: BuildInfoView, st: Stamps, rule: Rule, host: Platform, n: nat)
    ensures
        forall|j: int| 0 <= j < picked(i, st, rule, host, n).len() ==> #[trigger] picked_pair(
            i,
            st,
            rule,
            host,
            n,
            picked(i, st, rule, host, n)[j],
        ),
    decreases n,
{
    if n > 0 {
        lemma_picked_from(i, st, rule, host, (n - 1) as nat);
        let prev = picked(i, st, rule, host, (n - 1) as nat);
        let cur = picked(i, st, rule, host, n);
        assert forall|j: int| 0 <= j < cur.len() implies #[trigger] picked_pair(i, st, rule, host, n, cur[j]) by {
            if j < prev.len() {
                assert(cur[j] == prev[j]);
                assert(picked_pair(i, st, rule, host, (n - 1) as nat, prev[j]));
                let k = choose|k: int|
                    0 <= k < n - 1 && picks(st, rule, k) && prev[j] == #[trigger] source_pair(i, host, k);
                assert(source_pair(i, host, k) == cur[j]);
            } else {
                assert(cur[j] == source_pair(i, host, n - 1));
            }
        }
    }
}

/// The source at `k` has an object built no earlier than the source was last edited.
pub open spec fn object_fresh(st: Stamps, k: int) -> bool {
    match st.objects@[k] {
        Some(o) => st.sources@[k] <= o,
        None => false,
    }
}

/// `p` is a source, with its object, that has no object or was edited after its object
/// was built.
pub open spec fn stale_pair(i: BuildInfoView, st: Stamps, host: Platform, p: (Seq<char>, Seq<char>)) -> bool {
    exists|k: int| 0 <= k < i.sources.len() && !object_fresh(st, k) && p == #[trigger] source_pair(i, host, k)
}

/// Every pair is such a source with its object.
pub open spec fn all_stale(i: BuildInfoView, st: Stamps, host: Platform, pairs: Seq<(Seq<char>, Seq<char>)>) -> bool {
    forall|j: int| 0 <= j < pairs.len() ==> #[trigger] stale_pair(i, st, host, pairs[j])
}

/// Without an output, only sources that have no object, or were edited after their
/// object was built, are compiled; when there are none the build only links.
pub proof fn law_only_stale_recompile(i: BuildInfoView, st: Stamps, host: Platform)
    requires
        st.outfile is None,
    ensures
        level_spec(i, st, host) is LinkOnly || level_spec(i, st, host) is CompileAndLink,
        level_spec(i, st, host) matches BuildLevelView::CompileAndLink(pairs) ==> pairs.len() > 0,
        level_spec(i, st, host) matches BuildLevelView::CompileAndLink(pairs) ==> all_stale(
            i,
            st,
            host,
            pairs,
        ),
        (forall|k: int| 0 <= k < i.sources.len() ==> #[trigger] object_fresh(st, k)) ==> level_spec(
            i,
            st,
            host,
        ) == BuildLevelView::LinkOnly,
{
    let n = i.sources.len();
    lemma_picked_from(i, st, Rule::NewerThanObject, host, n);
    let pairs = picked(i, st, Rule::NewerThanObject, host, n);
    assert(level_spec(i, st, host) == if pairs.len() == 0 {
        BuildLevelView::LinkOnly
    } else {
        BuildLevelView::CompileAndLink(pairs)
    });
    assert forall|j: int| 0 <= j < pairs.len() implies #[trigger] stale_pair(i, st, host, pairs[j]) by {
        assert(picked_pair(i, st, Rule::NewerThanObject, host, n, pairs[j]));
        let k = choose|k: int|
            0 <= k < n && picks(st, Rule::NewerThanObject, k) && pairs[j] == #[trigger] source_pair(i, host, k);
        assert(!object_fresh(st, k));
    }
    assert(all_stale(i, st, host, pairs));
    if forall|k: int| 0 <= k < i.sources.len() ==> #[trigger] object_fresh(st, k) {
        assert forall|k: int| 0 <= k < n implies !#[trigger] picks(st, Rule::NewerThanObject, k) by {
            assert(object_fresh(st, k));
        }
        lemma_picked_none(i, st, Rule::NewerThanObject, host, n);
    }
}

/// `p` is a source edited after `pivot`, with its object.
pub open spec fn newer_pair(i: BuildInfoView, st: Stamps, host: Platform, pivot: u64, p: (Seq<char>, Seq<char>)) -> bool {
    exists|k: int| 0 <= k < i.sources.len() && st.sources@[k] > pivot && p == #[trigger] source_pair(i, host, k)
}

/// With an output and no header newer than it, only sources edited after the output
/// was built are compiled; when there are none, the build relinks exactly when a file
/// that forces a relink is newer than the output.
pub proof fn law_only_newer_recompile(i: BuildInfoView, st: Stamps, host: Platform, pivot: u64)
    requires
        st.outfile == Some(pivot),
        !any_newer(st.headers@, pivot),
    ensures
        level_spec(i, st, host) matches BuildLevelView::CompileAndLink(pairs) ==> pairs.len() > 0
            && forall|j: int| 0 <= j < pairs.len() ==> #[trigger] newer_pair(i, st, host, pivot, pairs[j]),
        (forall|k: int| 0 <= k < i.sources.len() ==> #[trigger] st.sources@[k] <= pivot) ==> level_spec(
            i,
            st,
            host,
        ) == (if any_newer(st.relink@, pivot) {
            BuildLevelView::LinkOnly
        } else {
            BuildLevelView::UpToDate
        }),
{
    let n = i.sources.len();
    let rule = Rule::NewerThan(pivot);
    lemma_picked_from(i, st, rule, host, n);
    let pairs = picked(i, st, rule, host, n);
    assert forall|j: int| 0 <= j < pairs.len() implies #[trigger] newer_pair(i, st, host, pivot, pairs[j]) by {
        assert(picked_pair(i, st, rule, host, n, pairs[j]));
        let k = choose|k: int| 0 <= k < n && picks(st, rule, k) && pairs[j] == #[trigger] source_pair(i, host, k);
        assert(st.sources@[k] > pivot);
    }
    if forall|k: int| 0 <= k < i.sources.len() ==> #[trigger] st.sources@[k] <= pivot {
        assert forall|k: int| 0 <= k < n implies !#[trigger] picks(st, rule, k) by {
            assert(st.sources@[k] <= pivot);
        }
        lemma_picked_none(i, st, rule, host, n);
    }
}

} // verus!
