//! The decisions a build run makes between the tools it starts: what to announce,
//! which headers to precompile, which sources use which precompiled header.
use vstd::prelude::*;
use crate::config::elems::language_text;
use crate::config::profiles::KeyMap;
use crate::config::{Artefact, Language, Platform};
use crate::error::Error;
use crate::exec::Toolchain;
use crate::exec::incremental::{BuildLevel, BuildLevelView};
use crate::exec::toolchain::msvc_compatible;
use crate::exec::{BuildInfo, BuildInfoView, PreCompHead, PchView};
use crate::paths::{join, path_join, path_with_ext, with_extension};
use crate::text::{concat, concat3, owned, str_eq, strs, to_ascii_uppercase, upper_seq};

verus! {

/// What MSVC makes of a standard it does not fully support, if anything needs saying.
pub open spec fn iso_warning(lang: Language) -> Option<Seq<char>> {
    match lang {
        Language::Cpp(n) => if n == 123 {
            Some("MSVC C++23: using latest working draft (/std:c++latest) - may be incomplete"@)
        } else if n < 114 {
            Some("MSVC "@ + upper_seq(language_text(lang)) + ": no longer supported - defaulting to C++14"@)
        } else {
            None
        },
        Language::C(n) => if n == 123 {
            Some("MSVC C23: using latest working draft (/std:clatest) - may be incomplete"@)
        } else if n == 99 {
            Some("MSVC C99: not officially supported - defaulting to C89 with extensions, may be incomplete"@)
        } else {
            None
        },
    }
}

/// The warning to give when an MSVC-style compiler builds `lang`.
pub fn msvc_check_iso(lang: Language) -> (res: Option<String>)
    ensures
        match iso_warning(lang) {
            Some(w) => res matches Some(r) && r@ == w,
            None => res is None,
        },
{
    match lang {
        Language::Cpp(n) => if n == 123 {
            Some(owned("MSVC C++23: using latest working draft (/std:c++latest) - may be incomplete"))
        } else if n < 114 {
            let name = to_ascii_uppercase(lang.to_string().as_str());
            Some(concat3("MSVC ", name.as_str(), ": no longer supported - defaulting to C++14"))
        } else {
            None
        },
        Language::C(n) => if n == 123 {
            Some(owned("MSVC C23: using latest working draft (/std:clatest) - may be incomplete"))
        } else if n == 99 {
            Some(
                owned(
                    "MSVC C99: not officially supported - defaulting to C89 with extensions, may be incomplete",
                ),
            )
        } else {
            None
        },
    }
}

/// `s` filled out with `fill` to `width` characters.
pub open spec fn pad_right(s: Seq<char>, fill: char, width: nat) -> Seq<char> {
    if s.len() >= width {
        s
    } else {
        s + Seq::new((width - s.len()) as nat, |i: int| fill)
    }
}

pub fn pad(s: String, fill: char, width: usize) -> (res: String)
    ensures
        res@ == pad_right(s@, fill, width as nat),
{
    let ghost s0 = s@;
    let mut res = s;
    let n = res.unicode_len();
    if n >= width {
        return res;
    }
    let mut k = n;
    while k < width
        invariant
            n < width,
            n <= k <= width,
            s0.len() == n,
            res@.len() == k,
            res@.take(n as int) == s0,
            forall|i: int| n <= i < k ==> res@[i] == fill,
        decreases width - k,
    {
        let ghost before = res@;
        res.push(fill);
        assert(res@.take(n as int) =~= before.take(n as int));
        k = k + 1;
    }
    assert(res@ =~= s0 + Seq::new((width - n) as nat, |i: int| fill));
    res
}


/// The line announcing a build at `depth` (0 for a dependency): padded with `=` to 80
/// characters. The up-to-date notice is given only at depth `u32::MAX`, the one depth
/// whose bitwise complement is 0.
pub open spec fn banner(level: BuildLevelView, depth: u32, changed: bool, outfile: Seq<char>) -> Option<Seq<char>> {
    match level {
        BuildLevelView::UpToDate => if depth == u32::MAX {
            Some("build up to date for project: "@ + outfile)
        } else {
            None
        },
        BuildLevelView::LinkOnly => Some(
            pad_right(
                if depth == 0 {
                    "building dependency: "@ + outfile + " "@
                } else {
                    "building project: "@ + outfile + " "@
                },
                '=',
                80,
            ),
        ),
        BuildLevelView::CompileAndLink(_) => Some(
            pad_right(
                if depth == 0 {
                    "building dependency: "@ + outfile + " "@
                } else if changed {
                    "environment changed - rebuilding project: "@ + outfile + " "@
                } else {
                    "building project: "@ + outfile + " "@
                },
                '=',
                80,
            ),
        ),
    }
}

pub fn build_banner(level: &BuildLevel, depth: u32, changed: bool, outfile: &str) -> (res: Option<String>)
    ensures
        match banner(level@, depth, changed, outfile@) {
            Some(b) => res matches Some(r) && r@ == b,
            None => res is None,
        },
{
    match level {
        BuildLevel::UpToDate => if !depth == 0 {
            assert(depth == u32::MAX) by (bit_vector)
                requires
                    !depth == 0u32,
            ;
            Some(concat("build up to date for project: ", outfile))
        } else {
            assert(depth != u32::MAX) by (bit_vector)
                requires
                    !depth != 0u32,
            ;
            None
        },
        BuildLevel::LinkOnly => Some(
            pad(
                if depth == 0 {
                    concat3("building dependency: ", outfile, " ")
                } else {
                    concat3("building project: ", outfile, " ")
                },
                '=',
                80,
            ),
        ),
        BuildLevel::CompileAndLink(_) => Some(
            pad(
                if depth == 0 {
                    concat3("building dependency: ", outfile, " ")
                } else if changed {
                    concat3("environment changed - rebuilding project: ", outfile, " ")
                } else {
                    concat3("building project: ", outfile, " ")
                },
                '=',
                80,
            ),
        ),
    }
}

/// The files around one precompiled header: its source, what the compiler reads to make
/// it, what it writes, and for MSVC-style compilers the stub source (path and text) that
/// includes the header.
#[derive(Debug, Clone, PartialEq, Eq)]
pub struct PchFiles {
    pub header_path: String,
    pub input: String,
    pub output: String,
    pub stub: Option<(String, String)>,
}

pub open spec fn pch_stub_path(i: BuildInfoView, host: Platform) -> Seq<char> {
    path_join(host, i.outdir, "pch/pch_impl."@ + (if i.lang is Cpp { "cpp"@ } else { "c"@ }))
}

pub open spec fn pch_files_spec(i: BuildInfoView, header: Seq<char>, host: Platform, f: PchFiles) -> bool {
    let inpch = path_join(host, i.srcdir, header);
    &&& f.header_path@ == inpch
    &&& if msvc_compatible(i.toolchain) {
        &&& f.input@ == pch_stub_path(i, host)
        &&& f.output@ == path_with_ext(host, path_join(host, path_join(host, i.outdir, "obj"@), header), "h.obj"@)
        &&& f.stub matches Some((p, t)) && p@ == pch_stub_path(i, host) && t@ == "#include \""@ + header + "\""@
    } else {
        &&& f.input@ == inpch
        &&& f.output@ == path_with_ext(host, path_join(host, path_join(host, i.outdir, "pch"@), header), "h.gch"@)
        &&& f.stub is None
    }
}

/// Where a header is precompiled from and to.
pub fn pch_files(info: &BuildInfo, header: &str, host: Platform) -> (res: PchFiles)
    ensures
        pch_files_spec(info@, header@, host, res),
{
    let inpch = join(host, info.srcdir.as_str(), header);
    let stub = join(host, info.outdir.as_str(), concat("pch/pch_impl.", info.lang.src_ext()).as_str());
    if info.toolchain.is_msvc_compatible() {
        let dir = join(host, info.outdir.as_str(), "obj");
        let file = join(host, dir.as_str(), header);
        let output = with_extension(host, file.as_str(), "h.obj");
        let text = concat3("#include \"", header, "\"");
        let stub2 = owned(stub.as_str());
        PchFiles { header_path: inpch, input: stub, output, stub: Some((stub2, text)) }
    } else {
        let dir = join(host, info.outdir.as_str(), "pch");
        let file = join(host, dir.as_str(), header);
        let output = with_extension(host, file.as_str(), "h.gch");
        let input = owned(inpch.as_str());
        PchFiles { header_path: inpch, input, output, stub: None }
    }
}

/// A precompiled header is remade when the environment changed, when it does not exist,
/// or when its header is newer.
pub fn pch_needs_rebuild(changed: bool, output_time: Option<u64>, header_time: u64) -> (res: bool)
    ensures
        res == (changed || match output_time {
            Some(t) => header_time > t,
            None => true,
        }),
{
    match output_time {
        Some(t) => changed || header_time > t,
        None => true,
    }
}

/// The sources of one precompiled header's set: those used and not ignored, each taking
/// the header.
pub open spec fn pch_set(used: Seq<Seq<char>>, ignored: Seq<Seq<char>>, header: Seq<char>) -> Map<Seq<char>, Seq<char>> {
    Map::new(|e: Seq<char>| used.contains(e) && !ignored.contains(e), |e: Seq<char>| header)
}

/// The sources of the set that an earlier set already claimed.
pub open spec fn pch_clashes(old: Map<Seq<char>, Seq<char>>, used: Seq<Seq<char>>, ignored: Seq<Seq<char>>) -> Set<Seq<char>> {
    Set::new(|e: Seq<char>| used.contains(e) && !ignored.contains(e) && old.dom().contains(e))
}

fn contains_before(v: &Vec<String>, upto: usize, e: &str) -> (res: bool)
    requires
        upto <= v@.len(),
    ensures
        res == strs(v@).take(upto as int).contains(e@),
{
    let mut k: usize = 0;
    while k < upto
        invariant
            k <= upto <= v@.len(),
            forall|j: int| 0 <= j < k ==> strs(v@)[j] != e@,
        decreases upto - k,
    {
        if str_eq(v[k].as_str(), e) {
            assert(strs(v@).take(upto as int)[k as int] == e@);
            return true;
        }
        k = k + 1;
    }
    proof {
        if strs(v@).take(upto as int).contains(e@) {
            let j = choose|j: int| 0 <= j < upto && strs(v@).take(upto as int)[j] == e@;
            assert(strs(v@)[j] == e@);
        }
    }
    false
}

proof fn lemma_push_contains<A>(s: Seq<A>, a: A, x: A)
    ensures
        s.push(a).contains(x) <==> (s.contains(x) || x == a),
{
    if s.contains(x) {
        let i = choose|i: int| 0 <= i < s.len() && s[i] == x;
        assert(s.push(a)[i] == x);
    }
    if x == a {
        assert(s.push(a)[s.len() as int] == a);
    }
    if s.push(a).contains(x) {
        let i = choose|i: int| 0 <= i < s.push(a).len() && s.push(a)[i] == x;
        if i < s.len() {
            assert(s[i] == x);
        }
    }
}

/// Gives each source of a precompiled header's set the header, and hands back the
/// sources an earlier set already claimed (each once), which then take this header.
pub fn assign_pch(map: &mut KeyMap<String, String>, used: &Vec<String>, ignored: &Vec<String>, header: &str) -> (clashes: Vec<String>)
    ensures
        final(map)@ == old(map)@.union_prefer_right(pch_set(strs(used@), strs(ignored@), header@)),
        strs(clashes@).to_set() == pch_clashes(old(map)@, strs(used@), strs(ignored@)),
        strs(clashes@).no_duplicates(),
{
    let ghost m0 = map@;
    let ghost u = strs(used@);
    let ghost ig = strs(ignored@);
    let mut clashes: Vec<String> = Vec::new();
    let mut k: usize = 0;
    assert(map@ =~= m0.union_prefer_right(pch_set(u.take(0), ig, header@)));
    assert(strs(clashes@).to_set() =~= pch_clashes(m0, u.take(0), ig));
    while k < used.len()
        invariant
            u == strs(used@),
            ig == strs(ignored@),
            k <= used@.len(),
            map@ == m0.union_prefer_right(pch_set(u.take(k as int), ig, header@)),
            strs(clashes@).to_set() == pch_clashes(m0, u.take(k as int), ig),
            strs(clashes@).no_duplicates(),
            forall|j: int| 0 <= j < clashes@.len() ==> u.take(k as int).contains(#[trigger] strs(clashes@)[j]),
        decreases used@.len() - k,
    {
        let e = used[k].as_str();
        let ghost ev = e@;
        assert(u[k as int] == ev);
        assert(u.take(k + 1) =~= u.take(k as int).push(ev));
        let seen = contains_before(used, k, e);
        let skipped = contains_before(ignored, ignored.len(), e);
        assert(ig.take(ignored@.len() as int) =~= ig);
        if seen || skipped {
            assert(pch_set(u.take(k + 1), ig, header@) =~= pch_set(u.take(k as int), ig, header@));
            assert(pch_clashes(m0, u.take(k + 1), ig) =~= pch_clashes(m0, u.take(k as int), ig));
            assert forall|j: int| 0 <= j < clashes@.len() implies u.take(k + 1).contains(
                #[trigger] strs(clashes@)[j],
            ) by {
                let x = strs(clashes@)[j];
                let i = choose|i: int| 0 <= i < k && u.take(k as int)[i] == x;
                assert(u.take(k + 1)[i] == x);
            }
        } else {
            let key = owned(e);
            let existed = map.contains(&key);
            assert(existed == m0.dom().contains(ev));
            let ghost prev = map@;
            map.insert(key, owned(header));
            assert forall|x: Seq<char>| #[trigger] u.take(k + 1).contains(x) <==> (u.take(
                k as int,
            ).contains(x) || x == ev) by {
                lemma_push_contains(u.take(k as int), ev, x);
            }
            assert(pch_set(u.take(k + 1), ig, header@) =~= pch_set(u.take(k as int), ig, header@).insert(
                ev,
                header@,
            ));
            assert(map@ =~= m0.union_prefer_right(pch_set(u.take(k + 1), ig, header@)));
            let ghost before = strs(clashes@);
            if existed {
                clashes.push(owned(e));
                assert(strs(clashes@) =~= before.push(ev));
                assert(!before.contains(ev));
            }
            assert(strs(clashes@).to_set() =~= pch_clashes(m0, u.take(k + 1), ig)) by {
                assert forall|x: Seq<char>| #[trigger] strs(clashes@).contains(x) <==> (
                before.contains(x) || (existed && x == ev)) by {
                    if existed {
                        lemma_push_contains(before, ev, x);
                    }
                }
                assert forall|x: Seq<char>| #[trigger] pch_clashes(m0, u.take(k + 1), ig).contains(x)
                    <==> (pch_clashes(m0, u.take(k as int), ig).contains(x) || (existed && x == ev)) by {
                    lemma_push_contains(u.take(k as int), ev, x);
                }
                assert forall|x: Seq<char>| #[trigger] strs(clashes@).to_set().contains(x) <==> pch_clashes(
                    m0,
                    u.take(k + 1),
                    ig,
                ).contains(x) by {
                    assert(before.to_set().contains(x) == before.contains(x));
                }
            }
            assert forall|j: int| 0 <= j < clashes@.len() implies u.take(k + 1).contains(
                #[trigger] strs(clashes@)[j],
            ) by {
                let x = strs(clashes@)[j];
                if j < before.len() {
                    let i = choose|i: int| 0 <= i < k && u.take(k as int)[i] == x;
                    assert(u.take(k + 1)[i] == x);
                } else {
                    assert(u.take(k + 1)[k as int] == x);
                }
            }
        }
        k = k + 1;
    }
    assert(u.take(used@.len() as int) =~= u);
    clashes
}

/// The part a source plays: it uses the header of the set that claimed it, if any.
pub fn pch_for(map: &KeyMap<String, String>, src: &str) -> (res: PreCompHead)
    ensures
        map@.dom().contains(src@) ==> res@ == PchView::Use(map@[src@]),
        !map@.dom().contains(src@) ==> res@ == PchView::NotUsed,
{
    match map.get(&owned(src)) {
        Some(h) => PreCompHead::Use(owned(h.as_str())),
        None => PreCompHead::NotUsed,
    }
}

/// The warning a build gives before compiling: MSVC-style compilers warn about the
/// standards they do not fully support, and only when something is compiled.
pub fn compile_warning(level: &BuildLevel, tc: Toolchain, lang: Language) -> (res: Option<String>)
    ensures
        match (if level@ is CompileAndLink && msvc_compatible(tc) { iso_warning(lang) } else { None }) {
            Some(w) => res matches Some(r) && r@ == w,
            None => res is None,
        },
{
    match level {
        BuildLevel::CompileAndLink(_) => if tc.is_msvc_compatible() {
            msvc_check_iso(lang)
        } else {
            None
        },
        _ => None,
    }
}

/// How compiling ends: a compiler that could not be started, or any source that did
/// not compile, fails the build of `outfile`.
pub fn compile_outcome(tc: Toolchain, started: bool, all_compiled: bool, outfile: &str) -> (res: Result<(), Error>)
    ensures
        !started ==> res == Err::<(), Error>(Error::CompilerNotFound(tc)),
        started && !all_compiled ==> (res matches Err(Error::CompilerFail(f)) && f@ == outfile@),
        started && all_compiled ==> res is Ok,
{
    if !started {
        Err(Error::CompilerNotFound(tc))
    } else if !all_compiled {
        Err(Error::CompilerFail(owned(outfile)))
    } else {
        Ok(())
    }
}

/// The line announcing the last step of a build: linking for programs and shared
/// libraries, archiving for static ones, the output file padded to 30 characters.
pub fn final_step_line(artefact: Artefact, outfile: &str) -> (res: String)
    ensures
        res@ == (if artefact is StaticLib { "archiving: "@ } else { "linking:   "@ }) + pad_right(
            outfile@,
            ' ',
            30,
        ),
{
    let padded = pad(owned(outfile), ' ', 30);
    match artefact {
        Artefact::StaticLib => concat("archiving: ", padded.as_str()),
        _ => concat("linking:   ", padded.as_str()),
    }
}

/// How the last step of a build ends: a tool that could not be started, a tool that
/// failed, or the notice that `outfile` was built.
pub fn final_step_outcome(artefact: Artefact, tc: Toolchain, started: bool, succeeded: bool, outfile: &str) -> (res: Result<String, Error>)
    ensures
        !started && artefact is StaticLib ==> res == Err::<String, Error>(Error::ArchiverNotFound(tc)),
        !started && !(artefact is StaticLib) ==> res == Err::<String, Error>(Error::LinkerNotFound(tc)),
        started && !succeeded && artefact is StaticLib ==> (res matches Err(Error::ArchiverFail(f))
            && f@ == outfile@),
        started && !succeeded && !(artefact is StaticLib) ==> (res matches Err(Error::LinkerFail(f))
            && f@ == outfile@),
        started && succeeded ==> (res matches Ok(m) && m@ == "successfully built project: "@
            + outfile@ + "\n"@),
{
    let archive = match artefact {
        Artefact::StaticLib => true,
        _ => false,
    };
    if !started {
        if archive {
            Err(Error::ArchiverNotFound(tc))
        } else {
            Err(Error::LinkerNotFound(tc))
        }
    } else if !succeeded {
        if archive {
            Err(Error::ArchiverFail(owned(outfile)))
        } else {
            Err(Error::LinkerFail(owned(outfile)))
        }
    } else {
        Ok(concat3("successfully built project: ", outfile, "\n"))
    }
}

/// The stages of a build run, in the order they come.
#[derive(Debug, Clone, Copy, PartialEq, Eq, Structural)]
pub enum Stage {
    Start,
    Precompile,
    Compile,
    Link,
    Finished,
}

/// The stage after `stage` ended, `succeeded` or not, in a build at `level`: an up to
/// date build does nothing; headers are precompiled before anything is compiled;
/// sources are compiled only when some are out of date; a failed stage ends the build,
/// so nothing is linked after a failed compile; linking ends the build.
pub open spec fn stage_after(level: BuildLevelView, stage: Stage, succeeded: bool) -> Stage {
    match stage {
        Stage::Start => if level is UpToDate { Stage::Finished } else { Stage::Precompile },
        Stage::Precompile => if !succeeded {
            Stage::Finished
        } else if level is CompileAndLink {
            Stage::Compile
        } else {
            Stage::Link
        },
        Stage::Compile => if succeeded { Stage::Link } else { Stage::Finished },
        Stage::Link => Stage::Finished,
        Stage::Finished => Stage::Finished,
    }
}

pub fn next_stage(level: &BuildLevel, stage: Stage, succeeded: bool) -> (res: Stage)
    ensures
        res == stage_after(level@, stage, succeeded),
{
    match stage {
        Stage::Start => match level {
            BuildLevel::UpToDate => Stage::Finished,
            _ => Stage::Precompile,
        },
        Stage::Precompile => if !succeeded {
            Stage::Finished
        } else {
            match level {
                BuildLevel::CompileAndLink(_) => Stage::Compile,
                _ => Stage::Link,
            }
        },
        Stage::Compile => if succeeded { Stage::Link } else { Stage::Finished },
        Stage::Link => Stage::Finished,
        Stage::Finished => Stage::Finished,
    }
}

/// The stage a run reaches after `n` stages that all succeeded.
pub open spec fn stage_run(level: BuildLevelView, n: nat) -> Stage
    decreases n,
{
    if n == 0 { Stage::Start } else { stage_after(level, stage_run(level, (n - 1) as nat), true) }
}

/// A build that is up to date does nothing; otherwise, when every stage succeeds, the
/// headers are precompiled, then the sources compiled when any are out of date, then
/// the output linked, and the run ends.
pub proof fn law_stage_order(level: BuildLevelView)
    ensures
        level is UpToDate ==> stage_run(level, 1) == Stage::Finished,
        !(level is UpToDate) ==> stage_run(level, 1) == Stage::Precompile,
        level is CompileAndLink ==> stage_run(level, 2) == Stage::Compile && stage_run(level, 3)
            == Stage::Link && stage_run(level, 4) == Stage::Finished,
        level is LinkOnly ==> stage_run(level, 2) == Stage::Link && stage_run(level, 3)
            == Stage::Finished,
{
    reveal_with_fuel(stage_run, 5);
}

/// Nothing is linked after a failed stage: a failed precompile or compile ends the run.
pub proof fn law_failure_ends_build(level: BuildLevelView, stage: Stage)
    ensures
        stage_after(level, stage, false) != Stage::Link,
        stage_after(level, stage, false) != Stage::Compile,
        stage != Stage::Start ==> stage_after(level, stage, false) == Stage::Finished,
{
}

} // verus!
