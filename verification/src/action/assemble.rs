//! Putting together the description of a build from the manifest, the chosen profile,
//! the dependencies, and the files found on disk.
use vstd::prelude::*;
use crate::action::test::TestLayout;
use crate::config::build::{BuildProfile, PackageManifest};
use crate::config::{Artefact, Platform, PrecompiledHeader};
use crate::deps::Dependencies;
use crate::exec::{BuildInfo, BuildInfoView, Toolchain};
use crate::exec::cmdline::{copy_of, none_of, push1, push_all, push_seg, single};
use crate::paths::{join, path_join};
use crate::text::{lower_seq, opt_str, owned, str_eq, strs, to_ascii_lowercase};

verus! {

/// Whether a package links the C++ runtime: it names `c++`, in any case, as its
/// runtime.
pub open spec fn cpp_runtime(runtime: Option<Seq<char>>) -> bool {
    match runtime {
        Some(r) => lower_seq(r) == "c++"@,
        None => false,
    }
}

pub fn links_cpp_runtime(runtime: &Option<String>) -> (res: bool)
    ensures
        res == cpp_runtime(opt_str(*runtime)),
{
    match runtime {
        Some(r) => str_eq(to_ascii_lowercase(r.as_str()).as_str(), "c++"),
        None => false,
    }
}

/// The precompiled headers of a profile: its header, if it names one, for every source.
pub open spec fn profile_pch(pch: Option<Seq<char>>, v: Seq<PrecompiledHeader>) -> bool {
    match pch {
        Some(h) => v.len() == 1 && v[0].header@ == h && v[0].used_by@.len() == 0
            && v[0].ignored_by@.len() == 0,
        None => v.len() == 0,
    }
}

fn pch_of(pch: &Option<String>) -> (res: Vec<PrecompiledHeader>)
    ensures
        profile_pch(opt_str(*pch), res@),
{
    let mut v: Vec<PrecompiledHeader> = Vec::new();
    match pch {
        Some(h) => {
            v.push(PrecompiledHeader { header: owned(h.as_str()), used_by: Vec::new(), ignored_by: Vec::new() });
        },
        None => {},
    }
    v
}

/// The build of a package: its sources in `src`, searched for headers after its
/// dependencies' header directories, linked with what the dependencies provide.
pub fn package_build_info(
    manifest: &PackageManifest,
    tc: Toolchain,
    profile: &BuildProfile,
    deps: Dependencies,
    defines: Vec<String>,
    changed: bool,
    sources: Vec<String>,
    headers: Vec<String>,
    outdir: String,
    outfile: String,
    implib: Option<String>,
) -> (res: BuildInfo)
    ensures
        res@ == (BuildInfoView {
            artefact: manifest.artefact,
            toolchain: tc,
            lang: manifest.lang,
            cpprt: cpp_runtime(opt_str(manifest.runtime)),
            settings: profile.settings,
            changed,
            is_testexe: false,
            defines: strs(defines@),
            srcdir: "src"@,
            incdirs: deps@.incdirs + profile@.include_dirs,
            libdirs: deps@.libdirs,
            rpaths: deps@.rpaths,
            outdir: outdir@,
            pch_count: res.pch@.len(),
            sources: strs(sources@),
            headers: strs(headers@),
            archives: deps@.archives,
            relink: deps@.relink,
            outfile: outfile@,
            implib: opt_str(implib),
            comp_args: profile@.compiler_options,
            link_args: profile@.linker_options,
        }),
        profile_pch(profile@.pch, res.pch@),
{
    let Dependencies { incdirs, libdirs, rpaths, archives, relink, defines: _ } = deps;
    let mut incdirs = incdirs;
    push_all(&mut incdirs, &profile.include_dirs);
    BuildInfo {
        artefact: manifest.artefact,
        toolchain: tc,
        lang: manifest.lang,
        cpprt: links_cpp_runtime(&manifest.runtime),
        settings: profile.settings,
        changed,
        is_testexe: false,
        defines,
        srcdir: owned("src"),
        incdirs,
        libdirs,
        rpaths,
        outdir,
        pch: pch_of(&profile.pch),
        sources,
        headers,
        archives,
        relink,
        outfile,
        implib,
        comp_args: copy_of(&profile.compiler_options),
        link_args: copy_of(&profile.linker_options),
    }
}

/// The headers of the test framework installed in `framework`.
pub open spec fn framework_headers(framework: Seq<char>, host: Platform) -> Seq<Seq<char>> {
    let dir = path_join(host, framework, "vangotest"@);
    seq![
        path_join(host, dir, "asserts.h"@),
        path_join(host, dir, "casserts.h"@),
        path_join(host, dir, "asserts2.h"@),
        path_join(host, dir, "casserts2.h"@),
    ]
}

/// The build of a package's tests: the sources in `test`, the test marker (and the wide
/// character API on Windows) defined after the dependencies' defines, the `test`
/// directory, the test framework and `include` searched for headers, and the package's
/// own library linked first from its build's output directory.
pub fn test_build_info(
    manifest: &PackageManifest,
    tc: Toolchain,
    profile: &BuildProfile,
    deps: Dependencies,
    framework: &str,
    base_outdir: &str,
    layout: TestLayout,
    sources: Vec<String>,
    headers: Vec<String>,
    host: Platform,
) -> (res: BuildInfo)
    ensures
        res@ == (BuildInfoView {
            artefact: Artefact::Executable,
            toolchain: tc,
            lang: manifest.lang,
            cpprt: cpp_runtime(opt_str(manifest.runtime)),
            settings: profile.settings,
            changed: false,
            is_testexe: true,
            defines: deps@.defines + seq!["VANGO_TEST"@] + (if host == Platform::Windows {
                seq!["UNICODE"@, "_UNICODE"@]
            } else {
                Seq::empty()
            }),
            srcdir: "test"@,
            incdirs: deps@.incdirs + seq!["test"@, framework@, "include"@],
            libdirs: deps@.libdirs + seq![base_outdir@],
            rpaths: deps@.rpaths,
            outdir: layout.outdir@,
            pch_count: 0,
            sources: strs(sources@),
            headers: strs(headers@) + framework_headers(framework@, host),
            archives: seq![layout.archive@] + deps@.archives,
            relink: seq![layout.relink@],
            outfile: layout.outfile@,
            implib: None,
            comp_args: Seq::empty(),
            link_args: Seq::empty(),
        }),
{
    let Dependencies { incdirs, libdirs, rpaths, archives, relink: _, defines } = deps;
    let mut defines = defines;
    push1(&mut defines, "VANGO_TEST");
    if host == Platform::Windows {
        push1(&mut defines, "UNICODE");
        push1(&mut defines, "_UNICODE");
    } else {
        push_seg(&mut defines, none_of());
    }
    let mut incdirs = incdirs;
    push1(&mut incdirs, "test");
    push1(&mut incdirs, framework);
    push1(&mut incdirs, "include");
    let mut libdirs = libdirs;
    push1(&mut libdirs, base_outdir);
    let mut first = single(layout.archive.as_str());
    push_all(&mut first, &archives);
    let dir = join(host, framework, "vangotest");
    let ghost h0 = strs(headers@);
    let mut headers = headers;
    push1(&mut headers, join(host, dir.as_str(), "asserts.h").as_str());
    push1(&mut headers, join(host, dir.as_str(), "casserts.h").as_str());
    push1(&mut headers, join(host, dir.as_str(), "asserts2.h").as_str());
    push1(&mut headers, join(host, dir.as_str(), "casserts2.h").as_str());
    let info = BuildInfo {
        artefact: Artefact::Executable,
        toolchain: tc,
        lang: manifest.lang,
        cpprt: links_cpp_runtime(&manifest.runtime),
        settings: profile.settings,
        changed: false,
        is_testexe: true,
        defines,
        srcdir: owned("test"),
        incdirs,
        libdirs,
        rpaths,
        outdir: layout.outdir,
        pch: Vec::new(),
        sources,
        headers,
        archives: first,
        relink: single(layout.relink.as_str()),
        outfile: layout.outfile,
        implib: None,
        comp_args: none_of(),
        link_args: none_of(),
    };
    assert(info@.defines =~= deps@.defines + seq!["VANGO_TEST"@] + (if host == Platform::Windows {
        seq!["UNICODE"@, "_UNICODE"@]
    } else {
        Seq::empty()
    }));
    assert(info@.incdirs =~= deps@.incdirs + seq!["test"@, framework@, "include"@]);
    assert(info@.libdirs =~= deps@.libdirs + seq![base_outdir@]);
    assert(info@.headers =~= h0 + framework_headers(framework@, host));
    assert(info@.archives =~= seq![layout.archive@] + deps@.archives);
    assert(info@.relink =~= seq![layout.relink@]);
    info
}

} // verus!
