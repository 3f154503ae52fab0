//! Ready-made build descriptions, for trying command lines out.
use vstd::prelude::*;
use crate::config::build::profile::debug_settings;
use crate::config::build::BuildSettings;
use crate::config::{Artefact, Language, PrecompiledHeader, Runtime, WarnLevel};
use crate::exec::cmdline::{none_of, push1, single};
use crate::exec::toolchain::windows_targeting;
use crate::exec::{BuildInfo, BuildInfoView, Toolchain};
use crate::text::{owned, strs};

verus! {

/// An MSVC build of a C++20 executable from `src` into `bin\debug` with debug settings.
pub open spec fn mock_base_view(outfile: Seq<char>) -> BuildInfoView {
    BuildInfoView {
        artefact: Artefact::Executable,
        toolchain: Toolchain::Msvc,
        lang: Language::Cpp(120),
        cpprt: false,
        settings: debug_settings(),
        changed: false,
        is_testexe: false,
        defines: Seq::empty(),
        srcdir: "src"@,
        incdirs: seq!["src"@],
        libdirs: Seq::empty(),
        rpaths: Seq::empty(),
        outdir: "bin\\debug"@,
        pch_count: 0,
        sources: Seq::empty(),
        headers: Seq::empty(),
        archives: Seq::empty(),
        relink: Seq::empty(),
        outfile,
        implib: None,
        comp_args: Seq::empty(),
        link_args: Seq::empty(),
    }
}

/// Toolchains that target Windows build with the wide character API.
pub open spec fn mock_defines(tc: Toolchain) -> Seq<Seq<char>> {
    if windows_targeting(tc) {
        seq!["UNICODE"@, "_UNICODE"@]
    } else {
        Seq::empty()
    }
}

/// The base build made a debug build of `artefact` in `lang` with `toolchain`.
pub open spec fn mock_debug_view(outfile: Seq<char>, artefact: Artefact, lang: Language, toolchain: Toolchain, pch_count: nat, crtstatic: bool) -> BuildInfoView {
    let base = mock_base_view(outfile);
    BuildInfoView {
        artefact,
        toolchain,
        lang,
        pch_count,
        settings: BuildSettings {
            runtime: if crtstatic { Runtime::StaticDebug } else { Runtime::DynamicDebug },
            ..base.settings
        },
        defines: mock_defines(toolchain),
        ..base
    }
}

/// The base build made a release build: full and link time optimisation, no debug
/// information, a release runtime.
pub open spec fn mock_release_view(outfile: Seq<char>, artefact: Artefact, lang: Language, toolchain: Toolchain, pch_count: nat, crtstatic: bool) -> BuildInfoView {
    let base = mock_base_view(outfile);
    BuildInfoView {
        artefact,
        toolchain,
        lang,
        pch_count,
        settings: BuildSettings {
            opt_level: 3,
            opt_linktime: true,
            debug_info: false,
            runtime: if crtstatic { Runtime::StaticRelease } else { Runtime::DynamicRelease },
            ..base.settings
        },
        defines: mock_defines(toolchain),
        ..base
    }
}

fn unicode_defines(toolchain: Toolchain) -> (res: Vec<String>)
    ensures
        strs(res@) == mock_defines(toolchain),
{
    if toolchain.is_windows() {
        let mut v = single("UNICODE");
        push1(&mut v, "_UNICODE");
        assert(strs(v@) =~= seq!["UNICODE"@, "_UNICODE"@]);
        v
    } else {
        none_of()
    }
}

impl BuildInfo {
    pub fn mock_base(outfile: &str) -> (res: BuildInfo)
        ensures
            res@ == mock_base_view(outfile@),
    {
        let res = BuildInfo {
            artefact: Artefact::Executable,
            toolchain: Toolchain::Msvc,
            lang: Language::Cpp(120),
            cpprt: false,
            changed: false,
            is_testexe: false,
            settings: BuildSettings {
                opt_level: 0,
                opt_size: false,
                opt_speed: false,
                opt_linktime: false,
                iso_compliant: false,
                warn_level: WarnLevel::Basic,
                warn_as_error: false,
                debug_info: true,
                runtime: Runtime::DynamicDebug,
                aslr: true,
                no_rtti: false,
                no_except: false,
                pthreads: false,
                asan: false,
                tsan: false,
                lsan: false,
                ubsan: false,
            },
            defines: none_of(),
            srcdir: owned("src"),
            incdirs: single("src"),
            libdirs: none_of(),
            rpaths: none_of(),
            outdir: owned("bin\\debug"),
            pch: Vec::new(),
            sources: none_of(),
            headers: none_of(),
            archives: none_of(),
            relink: none_of(),
            outfile: owned(outfile),
            implib: None,
            comp_args: none_of(),
            link_args: none_of(),
        };
        assert(res@ =~= mock_base_view(outfile@));
        res
    }

    pub fn mock_debug(
        outfile: &str,
        artefact: Artefact,
        lang: Language,
        toolchain: Toolchain,
        pch: Vec<PrecompiledHeader>,
        crtstatic: bool,
    ) -> (res: BuildInfo)
        ensures
            res@ == mock_debug_view(outfile@, artefact, lang, toolchain, pch@.len(), crtstatic),
            res.pch == pch,
    {
        let mut res = BuildInfo::mock_base(outfile);
        res.artefact = artefact;
        res.toolchain = toolchain;
        res.lang = lang;
        res.pch = pch;
        res.settings.runtime = if crtstatic {
            Runtime::StaticDebug
        } else {
            Runtime::DynamicDebug
        };
        res.defines = unicode_defines(toolchain);
        assert(res@ =~= mock_debug_view(outfile@, artefact, lang, toolchain, pch@.len(), crtstatic));
        res
    }

    pub fn mock_release(
        outfile: &str,
        artefact: Artefact,
        lang: Language,
        toolchain: Toolchain,
        pch: Vec<PrecompiledHeader>,
        crtstatic: bool,
    ) -> (res: BuildInfo)
        ensures
            res@ == mock_release_view(outfile@, artefact, lang, toolchain, pch@.len(), crtstatic),
            res.pch == pch,
    {
        let mut res = BuildInfo::mock_base(outfile);
        res.artefact = artefact;
        res.toolchain = toolchain;
        res.lang = lang;
        res.pch = pch;
        res.settings.opt_level = 3;
        res.settings.opt_linktime = true;
        res.settings.debug_info = false;
        res.settings.runtime = if crtstatic {
            Runtime::StaticRelease
        } else {
            Runtime::DynamicRelease
        };
        res.defines = unicode_defines(toolchain);
        assert(res@ =~= mock_release_view(outfile@, artefact, lang, toolchain, pch@.len(), crtstatic));
        res
    }
}

} // verus!
