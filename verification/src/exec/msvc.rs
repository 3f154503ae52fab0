//! Argument lists for MSVC-style tools (cl, LINK, LIB and their LLVM counterparts).
use vstd::prelude::*;
use crate::config::build::BuildSettings;
use crate::config::elems::language_text;
use crate::config::{Artefact, Language, Platform, Runtime, WarnLevel};
use crate::exec::cmdline::{
    lemma_prefixed_lacks, lemma_single_lacks, copy_of, none_of, only_if, prefixed, push1, push_all, push_joined, push_prefixed, push_seg,
    push_string, push_when, single,
};
use crate::exec::toolchain::llvm_based;
use crate::exec::{BuildInfo, BuildInfoView, PchView, PreCompHead, Toolchain};
use crate::paths::{join, path_join, path_with_ext, with_extension};
use crate::text::{concat3, strs};

verus! {

/// The standard switch: C++23 and the newest C as the latest draft, C++ before C++14 as
/// C++14, C99 as the default dialect and C89 with extensions off.
pub open spec fn msvc_std(lang: Language) -> Seq<Seq<char>> {
    match lang {
        Language::Cpp(n) => if n == 123 {
            seq!["/std:c++latest"@]
        } else if n < 114 {
            seq!["/std:c++14"@]
        } else {
            seq!["/std:"@ + language_text(lang)]
        },
        Language::C(n) => if n == 123 {
            seq!["/std:clatest"@]
        } else if n == 99 {
            Seq::empty()
        } else if n == 89 {
            seq!["/Za"@]
        } else {
            seq!["/std:"@ + language_text(lang)]
        },
    }
}

/// The runtime library; with the LLVM tools' address sanitizer the debug runtimes give
/// way to the release ones.
pub open spec fn msvc_runtime(s: BuildSettings, tc: Toolchain) -> Seq<Seq<char>> {
    match s.runtime {
        Runtime::DynamicDebug => if s.asan && llvm_based(tc) {
            seq!["/MD"@]
        } else {
            seq!["/MDd"@]
        },
        Runtime::DynamicRelease => seq!["/MD"@],
        Runtime::StaticDebug => if s.asan && llvm_based(tc) {
            seq!["/MT"@]
        } else {
            seq!["/MTd"@]
        },
        Runtime::StaticRelease => seq!["/MT"@],
    }
}

pub open spec fn msvc_compile_head(i: BuildInfoView) -> Seq<Seq<char>> {
    i.comp_args + seq!["/nologo"@, "/showIncludes"@, "/diagnostics:caret"@, "/c"@] + msvc_std(i.lang)
        + (if i.lang is Cpp { seq!["/Zc:__cplusplus"@] } else { seq!["/TC"@] }) + msvc_runtime(
        i.settings,
        i.toolchain,
    )
}

pub open spec fn msvc_opt_level(n: u32) -> Seq<Seq<char>> {
    if n == 0 {
        seq!["/Od"@]
    } else if n == 1 {
        seq!["/Ox"@]
    } else if n == 2 {
        seq!["/O1"@]
    } else if n == 3 {
        seq!["/O2"@, "/Oi"@]
    } else {
        Seq::empty()
    }
}

/// Optimisation, and debug information written next to the output.
pub open spec fn msvc_optimise(i: BuildInfoView) -> Seq<Seq<char>> {
    msvc_opt_level(i.settings.opt_level) + only_if(i.settings.opt_size, seq!["/Os"@]) + only_if(
        i.settings.opt_speed,
        seq!["/Ot"@],
    ) + only_if(i.settings.opt_linktime && !i.is_testexe, seq!["/GL"@]) + only_if(
        i.settings.debug_info,
        seq!["/Zi"@, "/FS"@, "/sdl"@, "/Fd:"@ + i.outdir + "\\"@] + only_if(
            !llvm_based(i.toolchain),
            seq!["/Zf"@],
        ),
    )
}

/// Warnings, conformance, C++ features and sanitizers.
pub open spec fn msvc_checks(i: BuildInfoView) -> Seq<Seq<char>> {
    let s = i.settings;
    (match s.warn_level {
        WarnLevel::Off => seq!["/w"@],
        WarnLevel::Basic => seq!["/W1"@],
        WarnLevel::High => seq!["/W4"@],
    }) + only_if(s.warn_as_error, seq!["/WX"@]) + only_if(s.iso_compliant, seq!["/permissive-"@])
        + only_if(i.lang is Cpp && s.no_rtti, seq!["/GR-"@]) + only_if(
        i.lang is Cpp,
        seq![if s.no_except { "/EHsc-"@ } else { "/EHsc"@ }],
    ) + only_if(s.asan, seq!["-fsanitize=address"@]) + only_if(
        s.ubsan && llvm_based(i.toolchain),
        seq!["-fsanitize=undefined"@],
    )
}

/// The precompiled header, created or used, kept in the `pch` directory of the output.
pub open spec fn msvc_pch(i: BuildInfoView, pch: PchView, host: Platform) -> Seq<Seq<char>> {
    match pch {
        PchView::Create(h) => seq![
            "/Yc"@ + h,
            "/Fp:"@ + path_with_ext(host, path_join(host, path_join(host, i.outdir, "pch"@), h), "h.pch"@),
        ],
        PchView::Use(h) => seq![
            "/Yu"@ + h,
            "/Fp:"@ + path_with_ext(host, path_join(host, path_join(host, i.outdir, "pch"@), h), "h.pch"@),
        ],
        PchView::NotUsed => Seq::empty(),
    }
}

/// The arguments that compile `src` into `obj` with an MSVC-style compiler on `host`.
pub open spec fn msvc_compile_args(i: BuildInfoView, src: Seq<char>, obj: Seq<char>, pch: PchView, host: Platform) -> Seq<Seq<char>> {
    msvc_compile_head(i) + msvc_optimise(i) + msvc_checks(i) + prefixed("/I"@, i.incdirs) + prefixed(
        "/D"@,
        i.defines,
    ) + msvc_pch(i, pch, host) + seq![src, "/Fo:"@ + obj]
}

/// The system libraries every program is linked with.
pub open spec fn msvc_default_libs() -> Seq<Seq<char>> {
    seq![
        "kernel32.lib"@,
        "user32.lib"@,
        "winspool.lib"@,
        "comdlg32.lib"@,
        "advapi32.lib"@,
        "shell32.lib"@,
        "ole32.lib"@,
        "oleaut32.lib"@,
        "uuid.lib"@,
        "odbc32.lib"@,
        "odbccp32.lib"@,
        "gdi32.lib"@,
    ]
}

pub open spec fn msvc_link_head(i: BuildInfoView) -> Seq<Seq<char>> {
    i.link_args + seq!["/NOLOGO"@, "/MACHINE:X64"@] + (if i.artefact is SharedLib {
        seq!["/DLL"@] + match i.implib {
            Some(p) => seq!["/IMPLIB:"@ + p],
            None => Seq::empty(),
        }
    } else {
        Seq::empty()
    }) + only_if(i.settings.aslr, seq!["/DYNAMICBASE"@]) + only_if(
        i.settings.debug_info,
        seq!["/DEBUG"@],
    ) + only_if(i.settings.opt_linktime && !i.is_testexe, seq!["/LTCG"@, "/OPT:REF"@]) + only_if(
        i.settings.warn_as_error,
        seq!["/WX"@],
    )
}

/// The arguments that link `objs` into the output file with an MSVC-style linker.
pub open spec fn msvc_link_args(i: BuildInfoView, objs: Seq<Seq<char>>) -> Seq<Seq<char>> {
    msvc_link_head(i) + objs + prefixed("/LIBPATH:"@, i.libdirs) + i.archives + only_if(
        i.settings.asan && llvm_based(i.toolchain),
        seq![
            "clang_rt.asan_dynamic-x86_64.lib"@,
            "clang_rt.asan_dynamic_runtime_thunk-x86_64.lib"@,
        ],
    ) + msvc_default_libs() + seq!["/OUT:"@ + i.outfile]
}

/// The arguments that archive `objs` into the output file with an MSVC-style librarian.
pub open spec fn msvc_archive_args(i: BuildInfoView, objs: Seq<Seq<char>>) -> Seq<Seq<char>> {
    i.link_args + seq!["/NOLOGO"@, "/MACHINE:X64"@] + only_if(i.settings.opt_linktime, seq!["/LTCG"@])
        + only_if(i.settings.warn_as_error, seq!["/WX"@]) + objs + seq!["/OUT:"@ + i.outfile]
}

fn list2(a: &str, b: &str) -> (res: Vec<String>)
    ensures
        strs(res@) == seq![a@, b@],
{
    let mut v = single(a);
    push1(&mut v, b);
    assert(strs(v@) =~= seq![a@, b@]);
    v
}

fn std_args(lang: Language) -> (res: Vec<String>)
    ensures
        strs(res@) == msvc_std(lang),
{
    match lang {
        Language::Cpp(n) => if n == 123 {
            single("/std:c++latest")
        } else if n < 114 {
            single("/std:c++14")
        } else {
            let mut v = none_of();
            push_joined(&mut v, "/std:", lang.to_string().as_str());
            assert(strs(v@) =~= msvc_std(lang));
            v
        },
        Language::C(n) => if n == 123 {
            single("/std:clatest")
        } else if n == 99 {
            none_of()
        } else if n == 89 {
            single("/Za")
        } else {
            let mut v = none_of();
            push_joined(&mut v, "/std:", lang.to_string().as_str());
            assert(strs(v@) =~= msvc_std(lang));
            v
        },
    }
}

fn runtime_args(s: BuildSettings, tc: Toolchain) -> (res: Vec<String>)
    ensures
        strs(res@) == msvc_runtime(s, tc),
{
    let llvm = tc.is_llvm();
    match s.runtime {
        Runtime::DynamicDebug => if s.asan && llvm {
            single("/MD")
        } else {
            single("/MDd")
        },
        Runtime::DynamicRelease => single("/MD"),
        Runtime::StaticDebug => if s.asan && llvm {
            single("/MT")
        } else {
            single("/MTd")
        },
        Runtime::StaticRelease => single("/MT"),
    }
}

fn compile_head(info: &BuildInfo) -> (res: Vec<String>)
    ensures
        strs(res@) == msvc_compile_head(info@),
{
    let mut v = copy_of(&info.comp_args);
    let mut w = single("/nologo");
    push1(&mut w, "/showIncludes");
    push1(&mut w, "/diagnostics:caret");
    push1(&mut w, "/c");
    assert(strs(w@) =~= seq!["/nologo"@, "/showIncludes"@, "/diagnostics:caret"@, "/c"@]);
    push_seg(&mut v, w);
    push_seg(&mut v, std_args(info.lang));
    if info.lang.is_cpp() {
        push_seg(&mut v, single("/Zc:__cplusplus"));
    } else {
        push_seg(&mut v, single("/TC"));
    }
    push_seg(&mut v, runtime_args(info.settings, info.toolchain));
    v
}

fn optimise(info: &BuildInfo) -> (res: Vec<String>)
    ensures
        strs(res@) == msvc_optimise(info@),
{
    let s = info.settings;
    let mut v = match s.opt_level {
        0 => single("/Od"),
        1 => single("/Ox"),
        2 => single("/O1"),
        3 => list2("/O2", "/Oi"),
        _ => none_of(),
    };
    push_when(&mut v, s.opt_size, "/Os");
    push_when(&mut v, s.opt_speed, "/Ot");
    push_when(&mut v, s.opt_linktime && !info.is_testexe, "/GL");
    if s.debug_info {
        let mut w = single("/Zi");
        push1(&mut w, "/FS");
        push1(&mut w, "/sdl");
        push_string(&mut w, concat3("/Fd:", info.outdir.as_str(), "\\"));
        assert(strs(w@) =~= seq!["/Zi"@, "/FS"@, "/sdl"@, "/Fd:"@ + info@.outdir + "\\"@]);
        push_when(&mut w, !info.toolchain.is_llvm(), "/Zf");
        push_seg(&mut v, w);
    } else {
        push_seg(&mut v, none_of());
    }
    v
}

fn checks(info: &BuildInfo) -> (res: Vec<String>)
    ensures
        strs(res@) == msvc_checks(info@),
{
    let s = info.settings;
    let cpp = info.lang.is_cpp();
    let mut v = match s.warn_level {
        WarnLevel::Off => single("/w"),
        WarnLevel::Basic => single("/W1"),
        WarnLevel::High => single("/W4"),
    };
    push_when(&mut v, s.warn_as_error, "/WX");
    push_when(&mut v, s.iso_compliant, "/permissive-");
    push_when(&mut v, cpp && s.no_rtti, "/GR-");
    if s.no_except {
        push_when(&mut v, cpp, "/EHsc-");
    } else {
        push_when(&mut v, cpp, "/EHsc");
    }
    push_when(&mut v, s.asan, "-fsanitize=address");
    push_when(&mut v, s.ubsan && info.toolchain.is_llvm(), "-fsanitize=undefined");
    v
}

fn pch_file(info: &BuildInfo, h: &str, host: Platform) -> (res: String)
    ensures
        res@ == path_with_ext(host, path_join(host, path_join(host, info@.outdir, "pch"@), h@), "h.pch"@),
{
    let dir = join(host, info.outdir.as_str(), "pch");
    let file = join(host, dir.as_str(), h);
    with_extension(host, file.as_str(), "h.pch")
}

fn pch_args(info: &BuildInfo, pch: &PreCompHead, host: Platform) -> (res: Vec<String>)
    ensures
        strs(res@) == msvc_pch(info@, pch@, host),
{
    match pch {
        PreCompHead::Create(h) => {
            let mut v = none_of();
            push_joined(&mut v, "/Yc", h.as_str());
            let f = pch_file(info, h.as_str(), host);
            push_joined(&mut v, "/Fp:", f.as_str());
            assert(strs(v@) =~= msvc_pch(info@, pch@, host));
            v
        },
        PreCompHead::Use(h) => {
            let mut v = none_of();
            push_joined(&mut v, "/Yu", h.as_str());
            let f = pch_file(info, h.as_str(), host);
            push_joined(&mut v, "/Fp:", f.as_str());
            assert(strs(v@) =~= msvc_pch(info@, pch@, host));
            v
        },
        PreCompHead::NotUsed => none_of(),
    }
}

/// The arguments that compile `src` into `obj` with an MSVC-style compiler on `host`.
pub fn compiler_args(src: &str, obj: &str, info: &BuildInfo, pch: &PreCompHead, host: Platform) -> (res: Vec<String>)
    ensures
        strs(res@) == msvc_compile_args(info@, src@, obj@, pch@, host),
{
    let mut v = compile_head(info);
    push_seg(&mut v, optimise(info));
    push_seg(&mut v, checks(info));
    push_prefixed(&mut v, "/I", &info.incdirs);
    push_prefixed(&mut v, "/D", &info.defines);
    push_seg(&mut v, pch_args(info, pch, host));
    let mut w = single(src);
    push_joined(&mut w, "/Fo:", obj);
    assert(strs(w@) =~= seq![src@, "/Fo:"@ + obj@]);
    push_seg(&mut v, w);
    v
}

fn default_libs() -> (res: Vec<String>)
    ensures
        strs(res@) == msvc_default_libs(),
{
    let mut v = single("kernel32.lib");
    push1(&mut v, "user32.lib");
    push1(&mut v, "winspool.lib");
    push1(&mut v, "comdlg32.lib");
    push1(&mut v, "advapi32.lib");
    push1(&mut v, "shell32.lib");
    push1(&mut v, "ole32.lib");
    push1(&mut v, "oleaut32.lib");
    push1(&mut v, "uuid.lib");
    push1(&mut v, "odbc32.lib");
    push1(&mut v, "odbccp32.lib");
    push1(&mut v, "gdi32.lib");
    assert(strs(v@) =~= msvc_default_libs());
    v
}

fn link_head(info: &BuildInfo) -> (res: Vec<String>)
    ensures
        strs(res@) == msvc_link_head(info@),
{
    let s = info.settings;
    let mut v = copy_of(&info.link_args);
    push_seg(&mut v, list2("/NOLOGO", "/MACHINE:X64"));
    if info.artefact == Artefact::SharedLib {
        let mut w = single("/DLL");
        match &info.implib {
            Some(p) => {
                let mut x = none_of();
                push_joined(&mut x, "/IMPLIB:", p.as_str());
                assert(strs(x@) =~= seq!["/IMPLIB:"@ + p@]);
                push_seg(&mut w, x);
            },
            None => push_seg(&mut w, none_of()),
        }
        push_seg(&mut v, w);
    } else {
        push_seg(&mut v, none_of());
    }
    push_when(&mut v, s.aslr, "/DYNAMICBASE");
    push_when(&mut v, s.debug_info, "/DEBUG");
    if s.opt_linktime && !info.is_testexe {
        push_seg(&mut v, list2("/LTCG", "/OPT:REF"));
    } else {
        push_seg(&mut v, none_of());
    }
    push_when(&mut v, s.warn_as_error, "/WX");
    v
}

/// The arguments that link `objs` into the output file with an MSVC-style linker.
pub fn linker_args(objs: Vec<String>, info: &BuildInfo) -> (res: Vec<String>)
    ensures
        strs(res@) == msvc_link_args(info@, strs(objs@)),
{
    let mut v = link_head(info);
    push_seg(&mut v, objs);
    push_prefixed(&mut v, "/LIBPATH:", &info.libdirs);
    push_all(&mut v, &info.archives);
    if info.settings.asan && info.toolchain.is_llvm() {
        push_seg(
            &mut v,
            list2("clang_rt.asan_dynamic-x86_64.lib", "clang_rt.asan_dynamic_runtime_thunk-x86_64.lib"),
        );
    } else {
        push_seg(&mut v, none_of());
    }
    push_seg(&mut v, default_libs());
    let mut w = none_of();
    push_joined(&mut w, "/OUT:", info.outfile.as_str());
    assert(strs(w@) =~= seq!["/OUT:"@ + info@.outfile]);
    push_seg(&mut v, w);
    v
}

/// The arguments that archive `objs` into the output file with an MSVC-style librarian.
pub fn archiver_args(objs: Vec<String>, info: &BuildInfo) -> (res: Vec<String>)
    ensures
        strs(res@) == msvc_archive_args(info@, strs(objs@)),
{
    let mut v = copy_of(&info.link_args);
    push_seg(&mut v, list2("/NOLOGO", "/MACHINE:X64"));
    push_when(&mut v, info.settings.opt_linktime, "/LTCG");
    push_when(&mut v, info.settings.warn_as_error, "/WX");
    push_seg(&mut v, objs);
    let mut w = none_of();
    push_joined(&mut w, "/OUT:", info.outfile.as_str());
    assert(strs(w@) =~= seq!["/OUT:"@ + info@.outfile]);
    push_seg(&mut v, w);
    v
}

/// Strict ISO conformance is asked of the compiler exactly as the settings say:
/// `/permissive-` is among the compile arguments whenever `iso-compliant` is set.
pub proof fn law_msvc_iso_compliant(i: BuildInfoView, src: Seq<char>, obj: Seq<char>, pch: PchView, host: Platform)
    requires
        i.settings.iso_compliant,
    ensures
        msvc_compile_args(i, src, obj, pch, host).contains("/permissive-"@),
{
    broadcast use vstd::seq_lib::lemma_seq_concat_contains_all_elements;

    let w = only_if(true, seq!["/permissive-"@]);
    assert(w[0] == "/permissive-"@);
    assert(w.contains("/permissive-"@));
}

proof fn lemma_msvc_head_lacks_permissive(i: BuildInfoView)
    requires
        !i.comp_args.contains("/permissive-"@),
    ensures
        !msvc_compile_head(i).contains("/permissive-"@),
{
    broadcast use vstd::seq_lib::lemma_seq_concat_contains_all_elements;

    reveal_strlit("/permissive-");
    let w = "/permissive-"@;
    assert(w[1] == 'p');
    reveal_strlit("/std:c++latest");
    assert("/std:c++latest"@ != w) by {
        assert("/std:c++latest"@[1] != w[1]);
    }
    lemma_single_lacks("/std:c++latest"@, w);
    reveal_strlit("/std:c++14");
    assert("/std:c++14"@ != w) by {
        assert("/std:c++14"@[1] != w[1]);
    }
    lemma_single_lacks("/std:c++14"@, w);
    reveal_strlit("/std:clatest");
    assert("/std:clatest"@ != w) by {
        assert("/std:clatest"@[1] != w[1]);
    }
    lemma_single_lacks("/std:clatest"@, w);
    reveal_strlit("/Za");
    assert("/Za"@ != w) by {
        assert("/Za"@[1] != w[1]);
    }
    lemma_single_lacks("/Za"@, w);
    reveal_strlit("/Zc:__cplusplus");
    assert("/Zc:__cplusplus"@ != w) by {
        assert("/Zc:__cplusplus"@[1] != w[1]);
    }
    lemma_single_lacks("/Zc:__cplusplus"@, w);
    reveal_strlit("/TC");
    assert("/TC"@ != w) by {
        assert("/TC"@[1] != w[1]);
    }
    lemma_single_lacks("/TC"@, w);
    reveal_strlit("/MD");
    assert("/MD"@ != w) by {
        assert("/MD"@[1] != w[1]);
    }
    lemma_single_lacks("/MD"@, w);
    reveal_strlit("/MDd");
    assert("/MDd"@ != w) by {
        assert("/MDd"@[1] != w[1]);
    }
    lemma_single_lacks("/MDd"@, w);
    reveal_strlit("/MT");
    assert("/MT"@ != w) by {
        assert("/MT"@[1] != w[1]);
    }
    lemma_single_lacks("/MT"@, w);
    reveal_strlit("/MTd");
    assert("/MTd"@ != w) by {
        assert("/MTd"@[1] != w[1]);
    }
    lemma_single_lacks("/MTd"@, w);
    reveal_strlit("/nologo");
    reveal_strlit("/showIncludes");
    reveal_strlit("/diagnostics:caret");
    reveal_strlit("/c");
    let fixed = seq!["/nologo"@, "/showIncludes"@, "/diagnostics:caret"@, "/c"@];
    assert(!fixed.contains(w)) by {
        assert forall|j: int| 0 <= j < fixed.len() implies fixed[j] != w by {
            assert(fixed[j][1] != w[1]);
        }
    }
    reveal_strlit("/std:");
    let std = "/std:"@ + language_text(i.lang);
    assert(std != w) by {
        assert(std[1] != w[1]);
    }
    lemma_single_lacks(std, w);
    assert(!Seq::<Seq<char>>::empty().contains(w));
    assert(!msvc_std(i.lang).contains(w));
    assert(!msvc_runtime(i.settings, i.toolchain).contains(w));
}

proof fn lemma_msvc_optimise_lacks_permissive(i: BuildInfoView)
    ensures
        !msvc_optimise(i).contains("/permissive-"@),
{
    broadcast use vstd::seq_lib::lemma_seq_concat_contains_all_elements;

    reveal_strlit("/permissive-");
    let w = "/permissive-"@;
    assert(w[1] == 'p');
    reveal_strlit("/Od");
    assert("/Od"@ != w) by {
        assert("/Od"@[1] != w[1]);
    }
    lemma_single_lacks("/Od"@, w);
    reveal_strlit("/Ox");
    assert("/Ox"@ != w) by {
        assert("/Ox"@[1] != w[1]);
    }
    lemma_single_lacks("/Ox"@, w);
    reveal_strlit("/O1");
    assert("/O1"@ != w) by {
        assert("/O1"@[1] != w[1]);
    }
    lemma_single_lacks("/O1"@, w);
    reveal_strlit("/Os");
    assert("/Os"@ != w) by {
        assert("/Os"@[1] != w[1]);
    }
    lemma_single_lacks("/Os"@, w);
    reveal_strlit("/Ot");
    assert("/Ot"@ != w) by {
        assert("/Ot"@[1] != w[1]);
    }
    lemma_single_lacks("/Ot"@, w);
    reveal_strlit("/GL");
    assert("/GL"@ != w) by {
        assert("/GL"@[1] != w[1]);
    }
    lemma_single_lacks("/GL"@, w);
    reveal_strlit("/Zf");
    assert("/Zf"@ != w) by {
        assert("/Zf"@[1] != w[1]);
    }
    lemma_single_lacks("/Zf"@, w);
    reveal_strlit("/O2");
    reveal_strlit("/Oi");
    let o3 = seq!["/O2"@, "/Oi"@];
    assert(!o3.contains(w)) by {
        assert forall|j: int| 0 <= j < o3.len() implies o3[j] != w by {
            assert(o3[j][1] != w[1]);
        }
    }
    reveal_strlit("/Zi");
    reveal_strlit("/FS");
    reveal_strlit("/sdl");
    reveal_strlit("/Fd:");
    let dbg = seq!["/Zi"@, "/FS"@, "/sdl"@, "/Fd:"@ + i.outdir + "\\"@];
    assert(!dbg.contains(w)) by {
        assert forall|j: int| 0 <= j < dbg.len() implies dbg[j] != w by {
            assert(dbg[j][1] != w[1]);
        }
    }
    assert(!Seq::<Seq<char>>::empty().contains(w));
    assert(!msvc_opt_level(i.settings.opt_level).contains(w));
}

proof fn lemma_msvc_checks_lack_permissive(i: BuildInfoView)
    requires
        !i.settings.iso_compliant,
    ensures
        !msvc_checks(i).contains("/permissive-"@),
{
    broadcast use vstd::seq_lib::lemma_seq_concat_contains_all_elements;

    reveal_strlit("/permissive-");
    let w = "/permissive-"@;
    assert(w[1] == 'p');
    reveal_strlit("/w");
    assert("/w"@ != w) by {
        assert("/w"@[1] != w[1]);
    }
    lemma_single_lacks("/w"@, w);
    reveal_strlit("/W1");
    assert("/W1"@ != w) by {
        assert("/W1"@[1] != w[1]);
    }
    lemma_single_lacks("/W1"@, w);
    reveal_strlit("/W4");
    assert("/W4"@ != w) by {
        assert("/W4"@[1] != w[1]);
    }
    lemma_single_lacks("/W4"@, w);
    reveal_strlit("/WX");
    assert("/WX"@ != w) by {
        assert("/WX"@[1] != w[1]);
    }
    lemma_single_lacks("/WX"@, w);
    reveal_strlit("/GR-");
    assert("/GR-"@ != w) by {
        assert("/GR-"@[1] != w[1]);
    }
    lemma_single_lacks("/GR-"@, w);
    reveal_strlit("/EHsc-");
    assert("/EHsc-"@ != w) by {
        assert("/EHsc-"@[1] != w[1]);
    }
    lemma_single_lacks("/EHsc-"@, w);
    reveal_strlit("/EHsc");
    assert("/EHsc"@ != w) by {
        assert("/EHsc"@[1] != w[1]);
    }
    lemma_single_lacks("/EHsc"@, w);
    reveal_strlit("-fsanitize=address");
    assert("-fsanitize=address"@ != w) by {
        assert("-fsanitize=address"@[1] != w[1]);
    }
    lemma_single_lacks("-fsanitize=address"@, w);
    reveal_strlit("-fsanitize=undefined");
    assert("-fsanitize=undefined"@ != w) by {
        assert("-fsanitize=undefined"@[1] != w[1]);
    }
    lemma_single_lacks("-fsanitize=undefined"@, w);
    assert(!only_if(i.settings.iso_compliant, seq![w]).contains(w));
    let eh = seq![if i.settings.no_except { "/EHsc-"@ } else { "/EHsc"@ }];
    assert(!eh.contains(w));
}

proof fn lemma_msvc_tail_lacks_permissive(i: BuildInfoView, src: Seq<char>, obj: Seq<char>, pch: PchView, host: Platform)
    requires
        src != "/permissive-"@,
    ensures
        !(prefixed("/I"@, i.incdirs) + prefixed("/D"@, i.defines) + msvc_pch(i, pch, host) + seq![
            src,
            "/Fo:"@ + obj,
        ]).contains("/permissive-"@),
{
    broadcast use vstd::seq_lib::lemma_seq_concat_contains_all_elements;

    reveal_strlit("/permissive-");
    reveal_strlit("/I");
    reveal_strlit("/D");
    reveal_strlit("/Yc");
    reveal_strlit("/Yu");
    reveal_strlit("/Fp:");
    reveal_strlit("/Fo:");
    let w = "/permissive-"@;
    assert(w[1] == 'p');
    lemma_prefixed_lacks("/I"@, i.incdirs, w);
    lemma_prefixed_lacks("/D"@, i.defines, w);
    let p = msvc_pch(i, pch, host);
    assert(!p.contains(w)) by {
        assert forall|j: int| 0 <= j < p.len() implies p[j] != w by {
            assert(p[j][1] != w[1]);
        }
    }
    let t = seq![src, "/Fo:"@ + obj];
    assert(!t.contains(w)) by {
        assert(t[1][1] != w[1]);
        assert forall|j: int| 0 <= j < t.len() implies t[j] != w by {}
    }
}

/// Without `iso-compliant`, `/permissive-` is not among the compile arguments unless it
/// was handed in itself, as an extra argument or as the source.
pub proof fn law_msvc_not_iso_compliant(i: BuildInfoView, src: Seq<char>, obj: Seq<char>, pch: PchView, host: Platform)
    requires
        !i.settings.iso_compliant,
        !i.comp_args.contains("/permissive-"@),
        src != "/permissive-"@,
    ensures
        !msvc_compile_args(i, src, obj, pch, host).contains("/permissive-"@),
{
    broadcast use vstd::seq_lib::lemma_seq_concat_contains_all_elements;

    lemma_msvc_head_lacks_permissive(i);
    lemma_msvc_optimise_lacks_permissive(i);
    lemma_msvc_checks_lack_permissive(i);
    lemma_msvc_tail_lacks_permissive(i, src, obj, pch, host);
    let a = msvc_compile_head(i) + msvc_optimise(i) + msvc_checks(i);
    let b = prefixed("/I"@, i.incdirs) + prefixed("/D"@, i.defines) + msvc_pch(i, pch, host) + seq![
        src,
        "/Fo:"@ + obj,
    ];
    assert(msvc_compile_args(i, src, obj, pch, host) =~= a + b);
}

/// The other settings a profile gives reach the compiler as well: warnings as errors,
/// the warning level, and the source and its object.
pub proof fn law_msvc_settings_honoured(i: BuildInfoView, src: Seq<char>, obj: Seq<char>, pch: PchView, host: Platform)
    ensures
        i.settings.warn_as_error ==> msvc_compile_args(i, src, obj, pch, host).contains("/WX"@),
        i.settings.warn_level == WarnLevel::Off ==> msvc_compile_args(i, src, obj, pch, host).contains(
            "/w"@,
        ),
        i.settings.warn_level == WarnLevel::Basic ==> msvc_compile_args(i, src, obj, pch, host).contains(
            "/W1"@,
        ),
        i.settings.warn_level == WarnLevel::High ==> msvc_compile_args(i, src, obj, pch, host).contains(
            "/W4"@,
        ),
        msvc_compile_args(i, src, obj, pch, host).contains(src),
        msvc_compile_args(i, src, obj, pch, host).contains("/Fo:"@ + obj),
{
    broadcast use vstd::seq_lib::lemma_seq_concat_contains_all_elements;

    assert(seq!["/WX"@][0] == "/WX"@);
    assert(seq!["/w"@][0] == "/w"@);
    assert(seq!["/W1"@][0] == "/W1"@);
    assert(seq!["/W4"@][0] == "/W4"@);
    let t = seq![src, "/Fo:"@ + obj];
    assert(t[0] == src && t[1] == "/Fo:"@ + obj);
}

} // verus!
