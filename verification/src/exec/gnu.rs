//! Argument lists for GNU-style drivers (gcc, clang, zig cc, emcc) and `ar`.
use vstd::prelude::*;
use crate::config::build::BuildSettings;
use crate::config::elems::language_text;
use crate::config::{Artefact, Platform, Runtime, WarnLevel};
use crate::exec::cmdline::{
    lemma_prefixed_lacks, lemma_single_lacks, push_all, copy_of, none_of, only_if, prefixed, push1, push_joined, push_prefixed, push_seg, push_string,
    push_when,
    single,
};
use crate::exec::toolchain::{llvm_based, windows_targeting};
use crate::exec::{BuildInfo, BuildInfoView, PchView, PreCompHead, Toolchain};
use crate::text::{concat3, strs};

verus! {

/// Position independent code for the binaries that load at a random address, unless the
/// toolchain targets Windows or the browser.
pub open spec fn gnu_pic(i: BuildInfoView) -> Seq<Seq<char>> {
    if !windows_targeting(i.toolchain) && i.toolchain != Toolchain::Emcc {
        match i.artefact {
            Artefact::Executable => if i.settings.aslr {
                seq!["-fpie"@]
            } else {
                seq!["-fno-pie"@]
            },
            _ => if i.settings.aslr {
                seq!["-fPIC"@]
            } else {
                seq!["-fno-pic"@]
            },
        }
    } else {
        Seq::empty()
    }
}

/// Extra arguments, the dependency listing, the standard, position independence, and
/// compile only.
pub open spec fn gnu_compile_head(i: BuildInfoView) -> Seq<Seq<char>> {
    i.comp_args + only_if(i.toolchain != Toolchain::Emcc, seq!["-H"@]) + seq![
        "-std="@ + language_text(i.lang),
    ] + gnu_pic(i) + seq!["-c"@]
}

pub open spec fn gnu_opt_level(n: u32) -> Seq<Seq<char>> {
    if n == 0 {
        seq!["-O0"@]
    } else if n == 1 {
        seq!["-O1"@]
    } else if n == 2 {
        seq!["-O2"@]
    } else if n == 3 {
        seq!["-O3"@]
    } else {
        Seq::empty()
    }
}

/// Optimisation and debug information.
pub open spec fn gnu_optimise(s: BuildSettings) -> Seq<Seq<char>> {
    gnu_opt_level(s.opt_level) + only_if(s.opt_size, seq!["-Os"@]) + only_if(s.opt_speed, seq!["-Ofast"@])
        + only_if(s.opt_linktime, seq!["-flto"@]) + only_if(s.debug_info, seq!["-g"@])
}

pub open spec fn gnu_high_warnings() -> Seq<Seq<char>> {
    seq![
        "-Wall"@,
        "-Wextra"@,
        "-Wpedantic"@,
        "-Wconversion"@,
        "-Wsign-conversion"@,
        "-Wshadow"@,
        "-Wformat=2"@,
        "-Wnull-dereference"@,
        "-Wdouble-promotion"@,
        "-Wimplicit-fallthrough"@,
    ]
}

/// Warnings, warnings as errors and strict ISO conformance.
pub open spec fn gnu_warnings(s: BuildSettings) -> Seq<Seq<char>> {
    (match s.warn_level {
        WarnLevel::Off => seq!["-w"@],
        WarnLevel::Basic => seq!["-Wall"@],
        WarnLevel::High => gnu_high_warnings(),
    }) + only_if(s.warn_as_error, seq!["-Werror"@]) + only_if(s.iso_compliant, seq!["-pedantic-errors"@])
}

/// The sanitizers asked for that the toolchain supports: address and undefined
/// behaviour everywhere but with GNU tools for Windows, thread and leak only off Windows.
pub open spec fn gnu_sanitizers(s: BuildSettings, tc: Toolchain) -> Seq<Seq<char>> {
    only_if(s.asan && (!windows_targeting(tc) || llvm_based(tc)), seq!["-fsanitize=address"@])
        + only_if(s.tsan && !windows_targeting(tc), seq!["-fsanitize=thread"@])
        + only_if(s.lsan && !windows_targeting(tc), seq!["-fsanitize=leak"@])
        + only_if(s.ubsan && (!windows_targeting(tc) || llvm_based(tc)), seq!["-fsanitize=undefined"@])
}

/// C++ features switched off, threads and sanitizers.
pub open spec fn gnu_features(i: BuildInfoView) -> Seq<Seq<char>> {
    only_if(i.lang is Cpp && i.settings.no_rtti, seq!["-fno-rtti"@]) + only_if(
        i.lang is Cpp && i.settings.no_except,
        seq!["-fno-exceptions"@],
    ) + only_if(i.settings.pthreads, seq!["-pthread"@]) + gnu_sanitizers(i.settings, i.toolchain)
}

/// The precompiled header: compiled as a header, or used from the `pch` directory.
pub open spec fn gnu_pch(i: BuildInfoView, pch: PchView) -> Seq<Seq<char>> {
    match pch {
        PchView::Create(_) => seq![
            "-x"@ + (if i.lang is Cpp { "c++"@ } else { "c"@ }) + "-header"@,
        ],
        PchView::Use(h) => if llvm_based(i.toolchain) {
            seq!["-include-pch"@, i.outdir + "/pch/"@ + h + ".gch"@]
        } else {
            seq!["-I"@ + i.outdir + "/pch"@]
        },
        PchView::NotUsed => Seq::empty(),
    }
}

/// Search paths, defines, the source and the object.
pub open spec fn gnu_compile_tail(i: BuildInfoView, src: Seq<char>, obj: Seq<char>, verbose: bool) -> Seq<Seq<char>> {
    prefixed("-I"@, i.incdirs) + prefixed("-D"@, i.defines) + only_if(
        i.toolchain == Toolchain::Emcc,
        seq!["-sUSE_SDL=2"@],
    ) + seq![src, "-o"@ + obj] + only_if(verbose, seq!["--verbose"@])
}

/// The arguments that compile `src` into `obj`.
pub open spec fn gnu_compile_args(i: BuildInfoView, src: Seq<char>, obj: Seq<char>, pch: PchView, verbose: bool) -> Seq<Seq<char>> {
    gnu_compile_head(i) + gnu_optimise(i.settings) + gnu_warnings(i.settings) + gnu_features(i)
        + gnu_pch(i, pch) + gnu_compile_tail(i, src, obj, verbose)
}

fn pic(info: &BuildInfo) -> (res: Vec<String>)
    ensures
        strs(res@) == gnu_pic(info@),
{
    if !info.toolchain.is_windows() && info.toolchain != Toolchain::Emcc {
        match info.artefact {
            Artefact::Executable => if info.settings.aslr {
                single("-fpie")
            } else {
                single("-fno-pie")
            },
            _ => if info.settings.aslr {
                single("-fPIC")
            } else {
                single("-fno-pic")
            },
        }
    } else {
        none_of()
    }
}

fn head(info: &BuildInfo) -> (res: Vec<String>)
    ensures
        strs(res@) == gnu_compile_head(info@),
{
    let mut v = copy_of(&info.comp_args);
    push_when(&mut v, info.toolchain != Toolchain::Emcc, "-H");
    push_joined(&mut v, "-std=", info.lang.to_string().as_str());
    push_seg(&mut v, pic(info));
    push1(&mut v, "-c");
    v
}

fn opt_level(n: u32) -> (res: Vec<String>)
    ensures
        strs(res@) == gnu_opt_level(n),
{
    match n {
        0 => single("-O0"),
        1 => single("-O1"),
        2 => single("-O2"),
        3 => single("-O3"),
        _ => none_of(),
    }
}

fn optimise(s: BuildSettings) -> (res: Vec<String>)
    ensures
        strs(res@) == gnu_optimise(s),
{
    let mut v = opt_level(s.opt_level);
    push_when(&mut v, s.opt_size, "-Os");
    push_when(&mut v, s.opt_speed, "-Ofast");
    push_when(&mut v, s.opt_linktime, "-flto");
    push_when(&mut v, s.debug_info, "-g");
    v
}

fn high_warnings() -> (res: Vec<String>)
    ensures
        strs(res@) == gnu_high_warnings(),
{
    let mut v = none_of();
    push1(&mut v, "-Wall");
    push1(&mut v, "-Wextra");
    push1(&mut v, "-Wpedantic");
    push1(&mut v, "-Wconversion");
    push1(&mut v, "-Wsign-conversion");
    push1(&mut v, "-Wshadow");
    push1(&mut v, "-Wformat=2");
    push1(&mut v, "-Wnull-dereference");
    push1(&mut v, "-Wdouble-promotion");
    push1(&mut v, "-Wimplicit-fallthrough");
    assert(strs(v@) =~= gnu_high_warnings());
    v
}

fn warnings(s: BuildSettings) -> (res: Vec<String>)
    ensures
        strs(res@) == gnu_warnings(s),
{
    let mut v = match s.warn_level {
        WarnLevel::Off => single("-w"),
        WarnLevel::Basic => single("-Wall"),
        WarnLevel::High => high_warnings(),
    };
    push_when(&mut v, s.warn_as_error, "-Werror");
    push_when(&mut v, s.iso_compliant, "-pedantic-errors");
    v
}

fn sanitizers(s: BuildSettings, tc: Toolchain) -> (res: Vec<String>)
    ensures
        strs(res@) == gnu_sanitizers(s, tc),
{
    let win = tc.is_windows();
    let llvm = tc.is_llvm();
    let mut v = none_of();
    push_when(&mut v, s.asan && (!win || llvm), "-fsanitize=address");
    assert(strs(v@) =~= only_if(s.asan && (!win || llvm), seq!["-fsanitize=address"@]));
    push_when(&mut v, s.tsan && !win, "-fsanitize=thread");
    push_when(&mut v, s.lsan && !win, "-fsanitize=leak");
    push_when(&mut v, s.ubsan && (!win || llvm), "-fsanitize=undefined");
    v
}

fn features(info: &BuildInfo) -> (res: Vec<String>)
    ensures
        strs(res@) == gnu_features(info@),
{
    let cpp = info.lang.is_cpp();
    let mut v = none_of();
    push_when(&mut v, cpp && info.settings.no_rtti, "-fno-rtti");
    assert(strs(v@) =~= only_if(cpp && info.settings.no_rtti, seq!["-fno-rtti"@]));
    push_when(&mut v, cpp && info.settings.no_except, "-fno-exceptions");
    push_when(&mut v, info.settings.pthreads, "-pthread");
    push_seg(&mut v, sanitizers(info.settings, info.toolchain));
    v
}

fn pch_args(info: &BuildInfo, pch: &PreCompHead) -> (res: Vec<String>)
    ensures
        strs(res@) == gnu_pch(info@, pch@),
{
    match pch {
        PreCompHead::Create(_) => {
            if info.lang.is_cpp() {
                let v = single("-xc++-header");
                assert(("-x"@ + "c++"@ + "-header"@) =~= "-xc++-header"@) by {
                    reveal_strlit("-x");
                    reveal_strlit("c++");
                    reveal_strlit("-header");
                    reveal_strlit("-xc++-header");
                }
                v
            } else {
                let v = single("-xc-header");
                assert(("-x"@ + "c"@ + "-header"@) =~= "-xc-header"@) by {
                    reveal_strlit("-x");
                    reveal_strlit("c");
                    reveal_strlit("-header");
                    reveal_strlit("-xc-header");
                }
                v
            }
        },
        PreCompHead::Use(h) => {
            if info.toolchain.is_llvm() {
                let mut v = single("-include-pch");
                let p = concat3(info.outdir.as_str(), "/pch/", h.as_str());
                push_joined(&mut v, p.as_str(), ".gch");
                assert(strs(v@) =~= gnu_pch(info@, pch@));
                v
            } else {
                let p = concat3("-I", info.outdir.as_str(), "/pch");
                let mut v = none_of();
                push_string(&mut v, p);
                assert(strs(v@) =~= gnu_pch(info@, pch@));
                v
            }
        },
        PreCompHead::NotUsed => none_of(),
    }
}

fn compile_tail(info: &BuildInfo, src: &str, obj: &str, verbose: bool) -> (res: Vec<String>)
    ensures
        strs(res@) == gnu_compile_tail(info@, src@, obj@, verbose),
{
    let mut v = none_of();
    push_prefixed(&mut v, "-I", &info.incdirs);
    assert(strs(v@) =~= prefixed("-I"@, info@.incdirs));
    push_prefixed(&mut v, "-D", &info.defines);
    push_when(&mut v, info.toolchain == Toolchain::Emcc, "-sUSE_SDL=2");
    let ghost a = strs(v@);
    push1(&mut v, src);
    push_joined(&mut v, "-o", obj);
    assert(strs(v@) =~= a + seq![src@, "-o"@ + obj@]);
    push_when(&mut v, verbose, "--verbose");
    v
}

/// The arguments that compile `src` into `obj` with a GNU-style driver.
pub fn compiler_args(src: &str, obj: &str, info: &BuildInfo, pch: &PreCompHead, verbose: bool) -> (res: Vec<String>)
    ensures
        strs(res@) == gnu_compile_args(info@, src@, obj@, pch@, verbose),
{
    let mut v = head(info);
    push_seg(&mut v, optimise(info.settings));
    push_seg(&mut v, warnings(info.settings));
    push_seg(&mut v, features(info));
    push_seg(&mut v, pch_args(info, pch));
    push_seg(&mut v, compile_tail(info, src, obj, verbose));
    v
}

/// Building a shared library, and its import library when one is asked for.
pub open spec fn gnu_shared(i: BuildInfoView, host: Platform) -> Seq<Seq<char>> {
    if i.artefact is SharedLib {
        seq![if host == Platform::Macos { "-dynamiclib"@ } else { "-shared"@ }] + match i.implib {
            Some(p) => seq!["-Wl,--out-implib,"@ + p],
            None => Seq::empty(),
        }
    } else {
        Seq::empty()
    }
}

/// Address space layout randomisation as the host's linker spells it.
pub open spec fn gnu_link_aslr(i: BuildInfoView, host: Platform) -> Seq<Seq<char>> {
    if i.toolchain == Toolchain::Emcc {
        Seq::empty()
    } else if i.settings.aslr {
        if host == Platform::Windows {
            seq!["-Wl,--dynamicbase"@]
        } else if i.artefact is Executable && host == Platform::Linux {
            seq!["-pie"@]
        } else {
            Seq::empty()
        }
    } else if host == Platform::Linux {
        seq!["-no-pie"@]
    } else if host == Platform::Macos {
        seq!["-Wl,-no_pie"@]
    } else {
        Seq::empty()
    }
}

/// A static runtime: the C++ runtime when C++ is linked in, and the GCC runtime.
pub open spec fn gnu_static_runtime(i: BuildInfoView) -> Seq<Seq<char>> {
    if i.settings.runtime is StaticDebug || i.settings.runtime is StaticRelease {
        only_if(i.lang is Cpp || i.cpprt, seq!["-static-libstdc++"@]) + seq!["-static-libgcc"@]
    } else {
        Seq::empty()
    }
}

pub open spec fn gnu_link_head(i: BuildInfoView, host: Platform) -> Seq<Seq<char>> {
    i.link_args + gnu_shared(i, host) + gnu_link_aslr(i, host) + gnu_static_runtime(i) + only_if(
        i.settings.opt_linktime,
        seq!["-flto"@],
    ) + only_if(i.settings.pthreads, seq!["-pthread"@]) + gnu_sanitizers(i.settings, i.toolchain)
        + only_if(i.toolchain == Toolchain::Emcc, seq!["-sUSE_SDL=2"@, "-sFULL_ES3"@])
}

pub open spec fn gnu_link_tail(i: BuildInfoView, objs: Seq<Seq<char>>, verbose: bool) -> Seq<Seq<char>> {
    objs + prefixed("-L"@, i.libdirs) + prefixed("-Wl,-rpath,"@, i.rpaths) + prefixed("-l"@, i.archives)
        + seq!["-o"@ + i.outfile] + only_if(verbose, seq!["--verbose"@])
}

/// The arguments that link `objs` into the output file on `host`.
pub open spec fn gnu_link_args(i: BuildInfoView, objs: Seq<Seq<char>>, host: Platform, verbose: bool) -> Seq<Seq<char>> {
    gnu_link_head(i, host) + gnu_link_tail(i, objs, verbose)
}

/// The arguments that archive `objs` into the output file.
pub open spec fn gnu_archive_args(i: BuildInfoView, objs: Seq<Seq<char>>, verbose: bool) -> Seq<Seq<char>> {
    seq![if verbose { "rcsv"@ } else { "rcs"@ }, i.outfile] + i.link_args + objs
}

fn shared(info: &BuildInfo, host: Platform) -> (res: Vec<String>)
    ensures
        strs(res@) == gnu_shared(info@, host),
{
    match info.artefact {
        Artefact::SharedLib => {
            let mut v = if host == Platform::Macos {
                single("-dynamiclib")
            } else {
                single("-shared")
            };
            match &info.implib {
                Some(p) => {
                    let mut w = none_of();
                    push_joined(&mut w, "-Wl,--out-implib,", p.as_str());
                    assert(strs(w@) =~= seq!["-Wl,--out-implib,"@ + p@]);
                    push_seg(&mut v, w);
                },
                None => {
                    push_seg(&mut v, none_of());
                },
            }
            v
        },
        _ => none_of(),
    }
}

fn link_aslr(info: &BuildInfo, host: Platform) -> (res: Vec<String>)
    ensures
        strs(res@) == gnu_link_aslr(info@, host),
{
    if info.toolchain == Toolchain::Emcc {
        none_of()
    } else if info.settings.aslr {
        if host == Platform::Windows {
            single("-Wl,--dynamicbase")
        } else if info.artefact == Artefact::Executable && host == Platform::Linux {
            single("-pie")
        } else {
            none_of()
        }
    } else if host == Platform::Linux {
        single("-no-pie")
    } else if host == Platform::Macos {
        single("-Wl,-no_pie")
    } else {
        none_of()
    }
}

fn static_runtime(info: &BuildInfo) -> (res: Vec<String>)
    ensures
        strs(res@) == gnu_static_runtime(info@),
{
    match info.settings.runtime {
        Runtime::StaticDebug | Runtime::StaticRelease => {
            let mut v = none_of();
            push_when(&mut v, info.lang.is_cpp() || info.cpprt, "-static-libstdc++");
            assert(strs(v@) =~= only_if(info.lang is Cpp || info.cpprt, seq!["-static-libstdc++"@]));
            push1(&mut v, "-static-libgcc");
            v
        },
        _ => none_of(),
    }
}

fn link_head(info: &BuildInfo, host: Platform) -> (res: Vec<String>)
    ensures
        strs(res@) == gnu_link_head(info@, host),
{
    let mut v = copy_of(&info.link_args);
    push_seg(&mut v, shared(info, host));
    push_seg(&mut v, link_aslr(info, host));
    push_seg(&mut v, static_runtime(info));
    push_when(&mut v, info.settings.opt_linktime, "-flto");
    push_when(&mut v, info.settings.pthreads, "-pthread");
    push_seg(&mut v, sanitizers(info.settings, info.toolchain));
    if info.toolchain == Toolchain::Emcc {
        let mut w = single("-sUSE_SDL=2");
        push1(&mut w, "-sFULL_ES3");
        assert(strs(w@) =~= seq!["-sUSE_SDL=2"@, "-sFULL_ES3"@]);
        push_seg(&mut v, w);
    } else {
        push_seg(&mut v, none_of());
    }
    v
}

fn link_tail(info: &BuildInfo, objs: Vec<String>, verbose: bool) -> (res: Vec<String>)
    ensures
        strs(res@) == gnu_link_tail(info@, strs(objs@), verbose),
{
    let mut v = objs;
    push_prefixed(&mut v, "-L", &info.libdirs);
    push_prefixed(&mut v, "-Wl,-rpath,", &info.rpaths);
    push_prefixed(&mut v, "-l", &info.archives);
    push_joined(&mut v, "-o", info.outfile.as_str());
    push_when(&mut v, verbose, "--verbose");
    v
}

/// The arguments that link `objs` into the output file with a GNU-style driver on
/// `host`.
pub fn linker_args(objs: Vec<String>, info: &BuildInfo, host: Platform, verbose: bool) -> (res: Vec<String>)
    ensures
        strs(res@) == gnu_link_args(info@, strs(objs@), host, verbose),
{
    let mut v = link_head(info, host);
    push_seg(&mut v, link_tail(info, objs, verbose));
    v
}

/// The arguments that archive `objs` into the output file with `ar`.
pub fn archiver_args(objs: Vec<String>, info: &BuildInfo, verbose: bool) -> (res: Vec<String>)
    ensures
        strs(res@) == gnu_archive_args(info@, strs(objs@), verbose),
{
    let mut v = if verbose {
        single("rcsv")
    } else {
        single("rcs")
    };
    push1(&mut v, info.outfile.as_str());
    let ghost a = strs(v@);
    assert(a =~= seq![if verbose { "rcsv"@ } else { "rcs"@ }, info@.outfile]);
    push_all(&mut v, &info.link_args);
    push_seg(&mut v, objs);
    v
}

/// Warnings are made errors exactly as the settings ask: `-Werror` is among the compile
/// arguments whenever `warn-as-error` is set.
pub proof fn law_gnu_warn_as_error(i: BuildInfoView, src: Seq<char>, obj: Seq<char>, pch: PchView, verbose: bool)
    requires
        i.settings.warn_as_error,
    ensures
        gnu_compile_args(i, src, obj, pch, verbose).contains("-Werror"@),
{
    broadcast use vstd::seq_lib::lemma_seq_concat_contains_all_elements;

    let w = only_if(true, seq!["-Werror"@]);
    assert(w[0] == "-Werror"@);
    assert(w.contains("-Werror"@));
}

proof fn lemma_head_lacks_werror(i: BuildInfoView)
    requires
        !i.comp_args.contains("-Werror"@),
    ensures
        !gnu_compile_head(i).contains("-Werror"@),
{
    broadcast use vstd::seq_lib::lemma_seq_concat_contains_all_elements;

    reveal_strlit("-Werror");
    reveal_strlit("-H");
    reveal_strlit("-std=");
    reveal_strlit("-c");
    reveal_strlit("-fpie");
    reveal_strlit("-fno-pie");
    reveal_strlit("-fPIC");
    reveal_strlit("-fno-pic");
    let w = "-Werror"@;
    let std = "-std="@ + language_text(i.lang);
    assert(std[1] != w[1]);
    assert(!seq![std].contains(w)) by {
        assert(seq![std][0] == std);
    }
    assert(!gnu_pic(i).contains(w));
}

proof fn lemma_optimise_lacks_werror(s: BuildSettings)
    ensures
        !gnu_optimise(s).contains("-Werror"@),
{
    broadcast use vstd::seq_lib::lemma_seq_concat_contains_all_elements;

    let w = "-Werror"@;
    reveal_strlit("-Werror");
    reveal_strlit("-O0");
    reveal_strlit("-O1");
    reveal_strlit("-O2");
    reveal_strlit("-O3");
    reveal_strlit("-Os");
    reveal_strlit("-Ofast");
    reveal_strlit("-flto");
    reveal_strlit("-g");
    assert("-O0"@ != w) by {
        assert("-O0"@.len() != w.len());
    }
    lemma_single_lacks("-O0"@, w);
    assert("-O1"@ != w) by {
        assert("-O1"@.len() != w.len());
    }
    lemma_single_lacks("-O1"@, w);
    assert("-O2"@ != w) by {
        assert("-O2"@.len() != w.len());
    }
    lemma_single_lacks("-O2"@, w);
    assert("-O3"@ != w) by {
        assert("-O3"@.len() != w.len());
    }
    lemma_single_lacks("-O3"@, w);
    assert("-Os"@ != w) by {
        assert("-Os"@.len() != w.len());
    }
    lemma_single_lacks("-Os"@, w);
    assert("-Ofast"@ != w) by {
        assert("-Ofast"@.len() != w.len());
    }
    lemma_single_lacks("-Ofast"@, w);
    assert("-flto"@ != w) by {
        assert("-flto"@.len() != w.len());
    }
    lemma_single_lacks("-flto"@, w);
    assert("-g"@ != w) by {
        assert("-g"@.len() != w.len());
    }
    lemma_single_lacks("-g"@, w);
    assert(!Seq::<Seq<char>>::empty().contains(w));
    assert(!gnu_opt_level(s.opt_level).contains(w));
}

proof fn lemma_warnings_lack_werror(s: BuildSettings)
    requires
        !s.warn_as_error,
    ensures
        !gnu_warnings(s).contains("-Werror"@),
{
    broadcast use vstd::seq_lib::lemma_seq_concat_contains_all_elements;

    reveal_strlit("-Werror");
    reveal_strlit("-w");
    reveal_strlit("-Wall");
    reveal_strlit("-Wextra");
    reveal_strlit("-Wpedantic");
    reveal_strlit("-Wconversion");
    reveal_strlit("-Wsign-conversion");
    reveal_strlit("-Wshadow");
    reveal_strlit("-Wformat=2");
    reveal_strlit("-Wnull-dereference");
    reveal_strlit("-Wdouble-promotion");
    reveal_strlit("-Wimplicit-fallthrough");
    reveal_strlit("-pedantic-errors");
    let w = "-Werror"@;
    let h = gnu_high_warnings();
    assert(!h.contains(w)) by {
        assert forall|j: int| 0 <= j < h.len() implies h[j] != w by {
            if j == 1 {
                assert(h[j][3] != w[3]);
            } else {
                assert(h[j].len() != w.len());
            }
        }
    }
    assert("-w"@ != w) by {
        assert("-w"@.len() != w.len());
    }
    lemma_single_lacks("-w"@, w);
    assert("-Wall"@ != w) by {
        assert("-Wall"@.len() != w.len());
    }
    lemma_single_lacks("-Wall"@, w);
    assert("-pedantic-errors"@ != w) by {
        assert("-pedantic-errors"@.len() != w.len());
    }
    lemma_single_lacks("-pedantic-errors"@, w);
    assert(!only_if(s.warn_as_error, seq![w]).contains(w));
}

proof fn lemma_features_lack_werror(i: BuildInfoView)
    ensures
        !gnu_features(i).contains("-Werror"@),
{
    broadcast use vstd::seq_lib::lemma_seq_concat_contains_all_elements;

    let w = "-Werror"@;
    reveal_strlit("-Werror");
    reveal_strlit("-fno-rtti");
    reveal_strlit("-fno-exceptions");
    reveal_strlit("-pthread");
    reveal_strlit("-fsanitize=address");
    reveal_strlit("-fsanitize=thread");
    reveal_strlit("-fsanitize=leak");
    reveal_strlit("-fsanitize=undefined");
    assert("-fno-rtti"@ != w) by {
        assert("-fno-rtti"@.len() != w.len());
    }
    lemma_single_lacks("-fno-rtti"@, w);
    assert("-fno-exceptions"@ != w) by {
        assert("-fno-exceptions"@.len() != w.len());
    }
    lemma_single_lacks("-fno-exceptions"@, w);
    assert("-pthread"@ != w) by {
        assert("-pthread"@.len() != w.len());
    }
    lemma_single_lacks("-pthread"@, w);
    assert("-fsanitize=address"@ != w) by {
        assert("-fsanitize=address"@.len() != w.len());
    }
    lemma_single_lacks("-fsanitize=address"@, w);
    assert("-fsanitize=thread"@ != w) by {
        assert("-fsanitize=thread"@.len() != w.len());
    }
    lemma_single_lacks("-fsanitize=thread"@, w);
    assert("-fsanitize=leak"@ != w) by {
        assert("-fsanitize=leak"@.len() != w.len());
    }
    lemma_single_lacks("-fsanitize=leak"@, w);
    assert("-fsanitize=undefined"@ != w) by {
        assert("-fsanitize=undefined"@.len() != w.len());
    }
    lemma_single_lacks("-fsanitize=undefined"@, w);
}

proof fn lemma_pch_lacks_werror(i: BuildInfoView, pch: PchView)
    ensures
        !gnu_pch(i, pch).contains("-Werror"@),
{
    reveal_strlit("-Werror");
    reveal_strlit("-x");
    reveal_strlit("-include-pch");
    reveal_strlit("/pch/");
    reveal_strlit(".gch");
    reveal_strlit("-I");
    reveal_strlit("/pch");
    let w = "-Werror"@;
    match pch {
        PchView::Create(_) => {
            let x = "-x"@ + (if i.lang is Cpp { "c++"@ } else { "c"@ }) + "-header"@;
            assert(x[1] != w[1]);
            assert(gnu_pch(i, pch)[0] == x);
        },
        PchView::Use(h) => {
            if llvm_based(i.toolchain) {
                let y = i.outdir + "/pch/"@ + h + ".gch"@;
                assert(y.len() != w.len());
                assert(gnu_pch(i, pch)[0] != w);
                assert(gnu_pch(i, pch)[1] == y);
            } else {
                let z = "-I"@ + i.outdir + "/pch"@;
                assert(z[1] != w[1]);
                assert(gnu_pch(i, pch)[0] == z);
            }
        },
        PchView::NotUsed => {},
    }
}

proof fn lemma_tail_lacks_werror(i: BuildInfoView, src: Seq<char>, obj: Seq<char>, verbose: bool)
    requires
        src != "-Werror"@,
    ensures
        !gnu_compile_tail(i, src, obj, verbose).contains("-Werror"@),
{
    broadcast use vstd::seq_lib::lemma_seq_concat_contains_all_elements;

    reveal_strlit("-Werror");
    reveal_strlit("-I");
    reveal_strlit("-D");
    reveal_strlit("-sUSE_SDL=2");
    reveal_strlit("-o");
    reveal_strlit("--verbose");
    let w = "-Werror"@;
    lemma_prefixed_lacks("-I"@, i.incdirs, w);
    lemma_prefixed_lacks("-D"@, i.defines, w);
    let o = "-o"@ + obj;
    assert(o[1] != w[1]);
    let t = seq![src, o];
    assert(!t.contains(w)) by {
        assert(t[0] == src && t[1] == o);
    }
}

/// Without `warn-as-error`, `-Werror` is not among the compile arguments unless it was
/// handed in itself, as an extra argument or as the source.
pub proof fn law_gnu_no_warn_as_error(i: BuildInfoView, src: Seq<char>, obj: Seq<char>, pch: PchView, verbose: bool)
    requires
        !i.settings.warn_as_error,
        !i.comp_args.contains("-Werror"@),
        src != "-Werror"@,
    ensures
        !gnu_compile_args(i, src, obj, pch, verbose).contains("-Werror"@),
{
    broadcast use vstd::seq_lib::lemma_seq_concat_contains_all_elements;

    lemma_head_lacks_werror(i);
    lemma_optimise_lacks_werror(i.settings);
    lemma_warnings_lack_werror(i.settings);
    lemma_features_lack_werror(i);
    lemma_pch_lacks_werror(i, pch);
    lemma_tail_lacks_werror(i, src, obj, verbose);
}

/// The other settings a profile gives reach the compiler as well: strict ISO
/// conformance, debug information, link time optimisation, threads and the warning
/// level each put their switch among the compile arguments, and the source and its
/// object are named.
pub proof fn law_gnu_settings_honoured(i: BuildInfoView, src: Seq<char>, obj: Seq<char>, pch: PchView, verbose: bool)
    ensures
        i.settings.iso_compliant ==> gnu_compile_args(i, src, obj, pch, verbose).contains(
            "-pedantic-errors"@,
        ),
        i.settings.debug_info ==> gnu_compile_args(i, src, obj, pch, verbose).contains("-g"@),
        i.settings.opt_linktime ==> gnu_compile_args(i, src, obj, pch, verbose).contains("-flto"@),
        i.settings.pthreads ==> gnu_compile_args(i, src, obj, pch, verbose).contains("-pthread"@),
        i.settings.warn_level == WarnLevel::Off ==> gnu_compile_args(i, src, obj, pch, verbose).contains(
            "-w"@,
        ),
        i.settings.warn_level != WarnLevel::Off ==> gnu_compile_args(i, src, obj, pch, verbose).contains(
            "-Wall"@,
        ),
        gnu_compile_args(i, src, obj, pch, verbose).contains(src),
        gnu_compile_args(i, src, obj, pch, verbose).contains("-o"@ + obj),
{
    broadcast use vstd::seq_lib::lemma_seq_concat_contains_all_elements;

    let s = i.settings;
    assert(seq!["-pedantic-errors"@][0] == "-pedantic-errors"@);
    assert(seq!["-g"@][0] == "-g"@);
    assert(seq!["-flto"@][0] == "-flto"@);
    assert(seq!["-pthread"@][0] == "-pthread"@);
    assert(seq!["-w"@][0] == "-w"@);
    assert(seq!["-Wall"@][0] == "-Wall"@);
    assert(gnu_high_warnings()[0] == "-Wall"@);
    let t = seq![src, "-o"@ + obj];
    assert(t[0] == src && t[1] == "-o"@ + obj);
}

} // verus!
