//! The flags written to `compile_flags.txt` so that clangd understands a project.
use vstd::prelude::*;
use crate::config::build::BuildSettings;
use crate::config::elems::{language_text, version_text};
use crate::config::{Artefact, Language, Platform, Version, WarnLevel};
use crate::exec::cmdline::{none_of, only_if, prefixed, push1, push_joined, push_prefixed, push_seg, push_string, push_when, single};
use crate::text::{concat, concat3, decimal, strs, u32_to_string};

verus! {

pub open spec fn clangd_warnings(s: BuildSettings) -> Seq<Seq<char>> {
    (match s.warn_level {
        WarnLevel::Off => seq!["-w"@],
        WarnLevel::Basic => seq!["-Wall"@],
        WarnLevel::High => seq![
            "-Wall"@,
            "-Wextra"@,
            "-Wconversion"@,
            "-Wsign-conversion"@,
            "-Wshadow"@,
            "-Wformat=2"@,
            "-Wnull-dereference"@,
            "-Wdouble-promotion"@,
            "-Wimplicit-fallthrough"@,
        ],
    }) + only_if(s.iso_compliant, seq!["-Wpedantic"@])
}

/// The package's own defines, as the debug build sees them.
pub open spec fn clangd_package_defines(artefact: Artefact, name: Seq<char>, version: Version, host: Platform) -> Seq<Seq<char>> {
    (if host == Platform::Windows {
        seq!["-DUNICODE"@, "-D_UNICODE"@] + only_if(artefact is SharedLib, seq!["-DVANGO_EXPORT_SHARED"@])
    } else {
        Seq::empty()
    }) + seq![
        "-DVANGO_DEBUG"@,
        "-DVANGO_PKG_NAME=\""@ + name + "\""@,
        "-DVANGO_PKG_VERSION=\""@ + version_text(version) + "\""@,
        "-DVANGO_PKG_VERSION_MAJOR="@ + decimal(version.major as nat),
        "-DVANGO_PKG_VERSION_MINOR="@ + decimal(version.minor as nat),
        "-DVANGO_PKG_VERSION_PATCH="@ + decimal(version.patch as nat),
    ]
}

/// The lines of `compile_flags.txt`: the standard, the language, the debug profile's
/// warnings, the dependencies' defines, the package's defines, then the header
/// directories of the dependencies, of the profile and of the test framework.
pub open spec fn compile_flags_spec(
    lang: Language,
    settings: BuildSettings,
    dep_defines: Seq<Seq<char>>,
    dep_incdirs: Seq<Seq<char>>,
    incdirs: Seq<Seq<char>>,
    artefact: Artefact,
    name: Seq<char>,
    version: Version,
    framework: Seq<char>,
    host: Platform,
) -> Seq<Seq<char>> {
    seq!["-std="@ + language_text(lang)] + only_if(lang is Cpp, seq!["-xc++"@]) + clangd_warnings(settings)
        + prefixed("-D"@, dep_defines) + clangd_package_defines(artefact, name, version, host)
        + prefixed("-I"@, dep_incdirs) + prefixed("-I"@, incdirs) + seq!["-I"@ + framework]
}

fn warnings(s: BuildSettings) -> (res: Vec<String>)
    ensures
        strs(res@) == clangd_warnings(s),
{
    let mut v = match s.warn_level {
        WarnLevel::Off => single("-w"),
        WarnLevel::Basic => single("-Wall"),
        WarnLevel::High => {
            let mut w = single("-Wall");
            push1(&mut w, "-Wextra");
            push1(&mut w, "-Wconversion");
            push1(&mut w, "-Wsign-conversion");
            push1(&mut w, "-Wshadow");
            push1(&mut w, "-Wformat=2");
            push1(&mut w, "-Wnull-dereference");
            push1(&mut w, "-Wdouble-promotion");
            push1(&mut w, "-Wimplicit-fallthrough");
            assert(strs(w@) =~= seq![
                "-Wall"@,
                "-Wextra"@,
                "-Wconversion"@,
                "-Wsign-conversion"@,
                "-Wshadow"@,
                "-Wformat=2"@,
                "-Wnull-dereference"@,
                "-Wdouble-promotion"@,
                "-Wimplicit-fallthrough"@,
            ]);
            w
        },
    };
    push_when(&mut v, s.iso_compliant, "-Wpedantic");
    v
}

fn package_defines(artefact: Artefact, name: &str, version: Version, host: Platform) -> (res: Vec<String>)
    ensures
        strs(res@) == clangd_package_defines(artefact, name@, version, host),
{
    let mut v = if host == Platform::Windows {
        let mut w = single("-DUNICODE");
        push1(&mut w, "-D_UNICODE");
        assert(strs(w@) =~= seq!["-DUNICODE"@, "-D_UNICODE"@]);
        push_when(&mut w, artefact == Artefact::SharedLib, "-DVANGO_EXPORT_SHARED");
        w
    } else {
        none_of()
    };
    let mut w = single("-DVANGO_DEBUG");
    push_string(&mut w, concat3("-DVANGO_PKG_NAME=\"", name, "\""));
    push_string(&mut w, concat3("-DVANGO_PKG_VERSION=\"", version.to_string().as_str(), "\""));
    push_string(&mut w, concat("-DVANGO_PKG_VERSION_MAJOR=", u32_to_string(version.major).as_str()));
    push_string(&mut w, concat("-DVANGO_PKG_VERSION_MINOR=", u32_to_string(version.minor).as_str()));
    push_string(&mut w, concat("-DVANGO_PKG_VERSION_PATCH=", u32_to_string(version.patch).as_str()));
    assert(strs(w@) =~= seq![
        "-DVANGO_DEBUG"@,
        "-DVANGO_PKG_NAME=\""@ + name@ + "\""@,
        "-DVANGO_PKG_VERSION=\""@ + version_text(version) + "\""@,
        "-DVANGO_PKG_VERSION_MAJOR="@ + decimal(version.major as nat),
        "-DVANGO_PKG_VERSION_MINOR="@ + decimal(version.minor as nat),
        "-DVANGO_PKG_VERSION_PATCH="@ + decimal(version.patch as nat),
    ]);
    push_seg(&mut v, w);
    v
}

/// The lines of `compile_flags.txt` for a package.
pub fn compile_flags(
    lang: Language,
    settings: BuildSettings,
    dep_defines: &Vec<String>,
    dep_incdirs: &Vec<String>,
    incdirs: &Vec<String>,
    artefact: Artefact,
    name: &str,
    version: Version,
    framework: &str,
    host: Platform,
) -> (res: Vec<String>)
    ensures
        strs(res@) == compile_flags_spec(
            lang,
            settings,
            strs(dep_defines@),
            strs(dep_incdirs@),
            strs(incdirs@),
            artefact,
            name@,
            version,
            framework@,
            host,
        ),
{
    let mut v = none_of();
    push_joined(&mut v, "-std=", lang.to_string().as_str());
    assert(strs(v@) =~= seq!["-std="@ + language_text(lang)]);
    push_when(&mut v, lang.is_cpp(), "-xc++");
    push_seg(&mut v, warnings(settings));
    push_prefixed(&mut v, "-D", dep_defines);
    push_seg(&mut v, package_defines(artefact, name, version, host));
    push_prefixed(&mut v, "-I", dep_incdirs);
    push_prefixed(&mut v, "-I", incdirs);
    let mut w = none_of();
    push_joined(&mut w, "-I", framework);
    assert(strs(w@) =~= seq!["-I"@ + framework@]);
    push_seg(&mut v, w);
    v
}

} // verus!
