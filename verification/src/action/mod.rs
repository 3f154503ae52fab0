//! What the actions decide between the files they read and the programs they start:
//! where a build's output goes and what it is called, the defines every build gets,
//! when a change of settings forces a full rebuild, and how a program's end is reported.
pub mod assemble;
pub mod clangd;
pub mod help;
pub mod new;
pub mod test;

use vstd::prelude::*;
use crate::config::build::BuildSettings;
use crate::config::elems::{profile_name, shared_lib_name, version_text};
use crate::config::{Artefact, Platform, Profile, Runtime, Version, WarnLevel};
use crate::error::Error;
use crate::exec::cmdline::{only_if, push1, push_all, push_seg, push_string, push_when};
use crate::exec::toolchain::{msvc_compatible, spec_system_default, toolchain_name, with_added_ext};
use crate::exec::Toolchain;
use crate::paths::{join, path_join};
use crate::text::{concat, concat3, decimal, owned, str_eq, strs, u32_to_string};

verus! {

/// The directory a build writes to: `bin/<profile>` with the host's own toolchain, else
/// `bin/<toolchain>/<profile>`.
pub open spec fn out_dir_spec(tc: Toolchain, profile: crate::config::ProfileView, host: Platform) -> Seq<char> {
    if tc == spec_system_default(host) {
        path_join(host, "bin"@, profile_name(profile))
    } else {
        path_join(host, path_join(host, "bin"@, toolchain_name(tc)), profile_name(profile))
    }
}

/// `b` joined below a directory that lies below `bin` still lies below `bin`.
proof fn lemma_join_below_bin(host: Platform, a: Seq<char>, b: Seq<char>)
    requires
        crate::paths::below(host, a, "bin"@),
        !(b.len() > 0 && crate::paths::is_sep(b[0], host)),
    ensures
        crate::paths::below(host, path_join(host, a, b), "bin"@),
{
    reveal_strlit("bin");
    let p = path_join(host, a, b);
    assert(p.take(3) =~= a.take(3));
    assert(p[3] == a[3]);
}

/// Every build writes below `bin`, whatever the toolchain, for a profile whose name
/// does not start at the root.
pub proof fn law_outputs_below_bin(tc: Toolchain, profile: crate::config::ProfileView, host: Platform)
    requires
        !(profile_name(profile).len() > 0 && crate::paths::is_sep(profile_name(profile)[0], host)),
    ensures
        crate::paths::below(host, out_dir_spec(tc, profile, host), "bin"@),
{
    reveal_strlit("bin");
    let name = profile_name(profile);
    let tcname = toolchain_name(tc);
    match tc {
        Toolchain::Msvc => reveal_strlit("msvc"),
        Toolchain::Gcc => reveal_strlit("gcc"),
        Toolchain::Mingw => reveal_strlit("mingw"),
        Toolchain::ClangMsvc => reveal_strlit("clang-msvc"),
        Toolchain::ClangGcc => reveal_strlit("clang-gcc"),
        Toolchain::ClangMingw => reveal_strlit("clang-mingw"),
        Toolchain::Zig => reveal_strlit("zig"),
        Toolchain::Emcc => reveal_strlit("emcc"),
    }
    let inner = path_join(host, "bin"@, tcname);
    let j = path_join(host, "bin"@, name);
    assert("bin"@.last() == 'n');
    assert(j.take(3) =~= "bin"@);
    assert(tcname.len() > 0 && !crate::paths::is_sep(tcname[0], host));
    assert(inner.take(3) =~= "bin"@);
    reveal_strlit("/");
    reveal_strlit("\\");
    assert(crate::paths::is_sep(crate::paths::sep_of(host)[0], host));
    assert(inner[3] == crate::paths::sep_of(host)[0]);
    assert(name.len() > 0 && !crate::paths::is_sep(name[0], host) ==> j[3] == crate::paths::sep_of(host)[0]);
    if tc != spec_system_default(host) {
        lemma_join_below_bin(host, inner, name);
    }
}

pub fn out_dir(tc: Toolchain, profile: &Profile, host: Platform) -> (res: String)
    ensures
        res@ == out_dir_spec(tc, profile@, host),
{
    let name = profile.to_string();
    if tc == Toolchain::system_default(host) {
        join(host, "bin", name.as_str())
    } else {
        let dir = join(host, "bin", tc.as_directory());
        join(host, dir.as_str(), name.as_str())
    }
}

/// The file name of a static library called `name`.
pub open spec fn static_lib_name(tc: Toolchain, name: Seq<char>) -> Seq<char> {
    if msvc_compatible(tc) {
        with_added_ext(name, "lib"@)
    } else {
        "lib"@ + name + ".a"@
    }
}

/// The output file of a build in `outdir`, and the import library it also writes when
/// it builds a shared library that has one.
pub open spec fn artefact_paths_spec(name: Seq<char>, artefact: Artefact, implib: bool, tc: Toolchain, outdir: Seq<char>, host: Platform) -> (Seq<char>, Option<Seq<char>>) {
    match artefact {
        Artefact::Executable => (path_join(host, outdir, name), None),
        Artefact::SharedLib => (
            path_join(host, outdir, shared_lib_name(host, name)),
            if implib {
                Some(path_join(host, outdir, static_lib_name(tc, name)))
            } else {
                None
            },
        ),
        Artefact::StaticLib => (path_join(host, outdir, static_lib_name(tc, name)), None),
    }
}

pub fn artefact_paths(name: &str, artefact: Artefact, implib: bool, tc: Toolchain, outdir: &str, host: Platform) -> (res: (String, Option<String>))
    ensures
        res.0@ == artefact_paths_spec(name@, artefact, implib, tc, outdir@, host).0,
        crate::text::opt_str(res.1) == artefact_paths_spec(name@, artefact, implib, tc, outdir@, host).1,
{
    match artefact {
        Artefact::Executable => (join(host, outdir, tc.fmt_executable(name).as_str()), None),
        Artefact::SharedLib => {
            let file = join(host, outdir, host.fmt_shared_lib(name).as_str());
            let lib = if implib {
                Some(join(host, outdir, tc.fmt_static_lib(name).as_str()))
            } else {
                None
            };
            (file, lib)
        },
        Artefact::StaticLib => (join(host, outdir, tc.fmt_static_lib(name).as_str()), None),
    }
}

/// The defines every build of a package gets after those of its dependencies and its
/// profile: the test marker, the wide character API and the export marker on Windows,
/// and the package's name and version.
pub open spec fn build_defines_spec(deps: Seq<Seq<char>>, profile: Seq<Seq<char>>, is_test: bool, artefact: Artefact, name: Seq<char>, version: Version, host: Platform) -> Seq<Seq<char>> {
    deps + profile + only_if(is_test, seq!["VANGO_TEST"@]) + (if host == Platform::Windows {
        seq!["UNICODE"@, "_UNICODE"@] + only_if(artefact is SharedLib, seq!["VANGO_EXPORT_SHARED"@])
    } else {
        Seq::empty()
    }) + seq![
        "VANGO_PKG_NAME=\""@ + name + "\""@,
        "VANGO_PKG_VERSION=\""@ + version_text(version) + "\""@,
        "VANGO_PKG_VERSION_MAJOR="@ + decimal(version.major as nat),
        "VANGO_PKG_VERSION_MINOR="@ + decimal(version.minor as nat),
        "VANGO_PKG_VERSION_PATCH="@ + decimal(version.patch as nat),
    ]
}

pub fn build_defines(deps: &Vec<String>, profile: &Vec<String>, is_test: bool, artefact: Artefact, name: &str, version: Version, host: Platform) -> (res: Vec<String>)
    ensures
        strs(res@) == build_defines_spec(strs(deps@), strs(profile@), is_test, artefact, name@, version, host),
{
    let mut v = crate::exec::cmdline::copy_of(deps);
    push_all(&mut v, profile);
    push_when(&mut v, is_test, "VANGO_TEST");
    if host == Platform::Windows {
        let mut w: Vec<String> = crate::exec::cmdline::single("UNICODE");
        push1(&mut w, "_UNICODE");
        assert(strs(w@) =~= seq!["UNICODE"@, "_UNICODE"@]);
        push_when(&mut w, artefact == Artefact::SharedLib, "VANGO_EXPORT_SHARED");
        push_seg(&mut v, w);
    } else {
        push_seg(&mut v, crate::exec::cmdline::none_of());
    }
    let mut w: Vec<String> = crate::exec::cmdline::none_of();
    push_string(&mut w, concat3("VANGO_PKG_NAME=\"", name, "\""));
    push_string(&mut w, concat3("VANGO_PKG_VERSION=\"", version.to_string().as_str(), "\""));
    push_string(&mut w, concat("VANGO_PKG_VERSION_MAJOR=", u32_to_string(version.major).as_str()));
    push_string(&mut w, concat("VANGO_PKG_VERSION_MINOR=", u32_to_string(version.minor).as_str()));
    push_string(&mut w, concat("VANGO_PKG_VERSION_PATCH=", u32_to_string(version.patch).as_str()));
    assert(strs(w@) =~= seq![
        "VANGO_PKG_NAME=\""@ + name@ + "\""@,
        "VANGO_PKG_VERSION=\""@ + version_text(version) + "\""@,
        "VANGO_PKG_VERSION_MAJOR="@ + decimal(version.major as nat),
        "VANGO_PKG_VERSION_MINOR="@ + decimal(version.minor as nat),
        "VANGO_PKG_VERSION_PATCH="@ + decimal(version.patch as nat),
    ]);
    push_seg(&mut v, w);
    v
}

/// The settings of the last build that decide whether objects can be reused.
#[derive(Debug, Clone, PartialEq, Eq)]
pub struct BuildCache {
    pub defines: Vec<String>,
    pub opt_level: u32,
    pub opt_size: bool,
    pub opt_speed: bool,
    pub opt_linktime: bool,
    pub iso_compliant: bool,
    pub warn_level: WarnLevel,
    pub warn_as_error: bool,
    pub debug_info: bool,
    pub runtime: Runtime,
    pub pthreads: bool,
    pub aslr: bool,
    pub no_rtti: bool,
    pub is_test: bool,
}

/// The cache a build with these defines and settings leaves.
pub fn cache_of(defines: Vec<String>, s: BuildSettings, is_test: bool) -> (res: BuildCache)
    ensures
        strs(res.defines@) == strs(defines@),
        res.opt_level == s.opt_level,
        res.opt_size == s.opt_size,
        res.opt_speed == s.opt_speed,
        res.opt_linktime == s.opt_linktime,
        res.iso_compliant == s.iso_compliant,
        res.warn_level == s.warn_level,
        res.warn_as_error == s.warn_as_error,
        res.debug_info == s.debug_info,
        res.runtime == s.runtime,
        res.pthreads == s.pthreads,
        res.aslr == s.aslr,
        res.no_rtti == s.no_rtti,
        res.is_test == is_test,
{
    BuildCache {
        defines,
        opt_level: s.opt_level,
        opt_size: s.opt_size,
        opt_speed: s.opt_speed,
        opt_linktime: s.opt_linktime,
        iso_compliant: s.iso_compliant,
        warn_level: s.warn_level,
        warn_as_error: s.warn_as_error,
        debug_info: s.debug_info,
        runtime: s.runtime,
        pthreads: s.pthreads,
        aslr: s.aslr,
        no_rtti: s.no_rtti,
        is_test,
    }
}

pub open spec fn warn_rank(w: WarnLevel) -> int {
    match w {
        WarnLevel::Off => 0,
        WarnLevel::Basic => 1,
        WarnLevel::High => 2,
    }
}

/// Whether objects built under `old` cannot be reused under `new`: any setting that
/// changes the code changed, or the checks became stricter.
pub open spec fn cache_changed_spec(new: BuildCache, old: BuildCache) -> bool {
    strs(new.defines@) != strs(old.defines@) || new.opt_level != old.opt_level || new.opt_size
        != old.opt_size || new.opt_speed != old.opt_speed || new.opt_linktime != old.opt_linktime
        || (new.iso_compliant && !old.iso_compliant) || (warn_rank(new.warn_level) > warn_rank(
        old.warn_level,
    ) && new.warn_as_error) || (new.warn_as_error && !old.warn_as_error) || new.debug_info
        != old.debug_info || new.runtime != old.runtime || new.pthreads != old.pthreads || new.aslr
        != old.aslr || new.no_rtti != old.no_rtti || new.is_test != old.is_test
}

fn same_strings(a: &Vec<String>, b: &Vec<String>) -> (res: bool)
    ensures
        res == (strs(a@) == strs(b@)),
{
    if a.len() != b.len() {
        assert(strs(a@).len() != strs(b@).len());
        return false;
    }
    let mut k: usize = 0;
    while k < a.len()
        invariant
            a@.len() == b@.len(),
            k <= a@.len(),
            forall|j: int| 0 <= j < k ==> strs(a@)[j] == strs(b@)[j],
        decreases a@.len() - k,
    {
        if !str_eq(a[k].as_str(), b[k].as_str()) {
            assert(strs(a@)[k as int] != strs(b@)[k as int]);
            return false;
        }
        k = k + 1;
    }
    assert(strs(a@) =~= strs(b@));
    true
}

fn rank(w: WarnLevel) -> (res: u8)
    ensures
        res == warn_rank(w),
{
    match w {
        WarnLevel::Off => 0,
        WarnLevel::Basic => 1,
        WarnLevel::High => 2,
    }
}

pub fn cache_changed(new: &BuildCache, old: &BuildCache) -> (res: bool)
    ensures
        res == cache_changed_spec(*new, *old),
{
    !same_strings(&new.defines, &old.defines) || new.opt_level != old.opt_level || new.opt_size
        != old.opt_size || new.opt_speed != old.opt_speed || new.opt_linktime != old.opt_linktime
        || (new.iso_compliant && !old.iso_compliant) || (rank(new.warn_level) > rank(old.warn_level)
        && new.warn_as_error) || (new.warn_as_error && !old.warn_as_error) || new.debug_info
        != old.debug_info || new.runtime != old.runtime || new.pthreads != old.pthreads || new.aslr
        != old.aslr || new.no_rtti != old.no_rtti || new.is_test != old.is_test
}

/// Building again with the settings of the last build reuses its objects.
pub proof fn law_unchanged_settings_keep_objects(c: BuildCache)
    ensures
        !cache_changed_spec(c, c),
{
}

/// Stricter checks force a rebuild; turning them off alone does not.
pub proof fn law_only_stricter_checks_rebuild(new: BuildCache, old: BuildCache)
    requires
        strs(new.defines@) == strs(old.defines@),
        new.opt_level == old.opt_level,
        new.opt_size == old.opt_size,
        new.opt_speed == old.opt_speed,
        new.opt_linktime == old.opt_linktime,
        new.debug_info == old.debug_info,
        new.runtime == old.runtime,
        new.pthreads == old.pthreads,
        new.aslr == old.aslr,
        new.no_rtti == old.no_rtti,
        new.is_test == old.is_test,
    ensures
        cache_changed_spec(new, old) == ((new.iso_compliant && !old.iso_compliant) || (warn_rank(
            new.warn_level,
        ) > warn_rank(old.warn_level) && new.warn_as_error) || (new.warn_as_error
            && !old.warn_as_error)),
{
}

/// Rebuilding is needed unless the cached settings exist and are compatible.
pub fn settings_changed(new: &BuildCache, old: Option<&BuildCache>) -> (res: bool)
    ensures
        res == match old {
            Some(o) => cache_changed_spec(*new, *o),
            None => true,
        },
{
    match old {
        Some(o) => cache_changed(new, o),
        None => true,
    }
}

/// Only a package that builds an executable can be run.
pub fn runnable(artefact: Artefact, name: &str) -> (res: Result<(), Error>)
    ensures
        artefact is Executable ==> res is Ok,
        !(artefact is Executable) ==> (res matches Err(Error::LibNotExe(n)) && n@ == name@),
{
    match artefact {
        Artefact::Executable => Ok(()),
        _ => Err(Error::LibNotExe(owned(name))),
    }
}

/// The name of a signal that ended a program.
pub open spec fn signal_name(sig: i32) -> Seq<char> {
    if sig == 3 {
        "SIGQUIT"@
    } else if sig == 4 {
        "SIGILL"@
    } else if sig == 5 {
        "SIGTRAP"@
    } else if sig == 6 {
        "SIGABRT"@
    } else if sig == 7 {
        "SIGBUS"@
    } else if sig == 8 {
        "SIGFPE"@
    } else if sig == 11 {
        "SIGSEGV"@
    } else {
        "UNKNOWN SIGNAL"@
    }
}

/// An exit code as the tool passes it on: itself when it fits a byte, else 1.
pub open spec fn exit_byte(code: int) -> u8 {
    if 0 <= code <= 255 { code as u8 } else { 1 }
}

fn signal_str(sig: i32) -> (res: &'static str)
    ensures
        res@ == signal_name(sig),
{
    match sig {
        3 => "SIGQUIT",
        4 => "SIGILL",
        5 => "SIGTRAP",
        6 => "SIGABRT",
        7 => "SIGBUS",
        8 => "SIGFPE",
        11 => "SIGSEGV",
        _ => "UNKNOWN SIGNAL",
    }
}

/// How a program's end on a Unix host is reported: killed by a signal, naming it (and a
/// core dump), or its exit code.
pub fn unix_exit(outfile: &str, signal: Option<i32>, core_dumped: bool, code: Option<i32>) -> (res: Result<u8, Error>)
    requires
        signal is None ==> code is Some,
    ensures
        match signal {
            Some(sig) => res matches Err(Error::ExeKilled(f, m)) && f@ == outfile@ && m@ == (if core_dumped {
                signal_name(sig) + ", core dumped"@
            } else {
                signal_name(sig)
            }),
            None => res == Ok::<u8, Error>(exit_byte(code->Some_0 as int)),
        },
{
    match signal {
        Some(sig) => {
            let name = signal_str(sig);
            if core_dumped {
                Err(Error::ExeKilled(owned(outfile), concat(name, ", core dumped")))
            } else {
                Err(Error::ExeKilled(owned(outfile), owned(name)))
            }
        },
        None => {
            let c = code.unwrap();
            if 0 <= c && c <= 255 {
                Ok(c as u8)
            } else {
                Ok(1)
            }
        },
    }
}

/// The Windows status codes that mean a program crashed, by name.
pub open spec fn crash_status(code: u32) -> Option<Seq<char>> {
    if code == 0xC000_0005 {
        Some("STATUS_ACCESS_VIOLATION"@)
    } else if code == 0xC000_0017 {
        Some("STATUS_NO_MEMORY"@)
    } else if code == 0xC000_001D {
        Some("STATUS_ILLEGAL_INSTRUCTION"@)
    } else if code == 0xC000_008E {
        Some("STATUS_FLOAT_DIVIDE_BY_ZERO"@)
    } else if code == 0xC000_0094 {
        Some("STATUS_INTEGER_DIVIDE_BY_ZERO"@)
    } else if code == 0xC000_0096 {
        Some("STATUS_PRIVILEGED_INSTRUCTION"@)
    } else if code == 0xC000_00FD {
        Some("STATUS_STACK_OVERFLOW"@)
    } else if code == 0xC000_013A {
        Some("STATUS_CONTROL_C_EXIT"@)
    } else if code == 0xC000_0409 {
        Some("STATUS_STACK_BUFFER_OVERRUN"@)
    } else {
        None
    }
}

/// How a program's end on Windows is reported: a crash status by name, else its exit
/// code.
pub fn windows_exit(outfile: &str, code: u32) -> (res: Result<u8, Error>)
    ensures
        match crash_status(code) {
            Some(m) => res matches Err(Error::ExeKilled(f, n)) && f@ == outfile@ && n@ == m,
            None => res == Ok::<u8, Error>(exit_byte(code as int)),
        },
{
    let name = match code {
        0xC000_0005 => "STATUS_ACCESS_VIOLATION",
        0xC000_0017 => "STATUS_NO_MEMORY",
        0xC000_001D => "STATUS_ILLEGAL_INSTRUCTION",
        0xC000_008E => "STATUS_FLOAT_DIVIDE_BY_ZERO",
        0xC000_0094 => "STATUS_INTEGER_DIVIDE_BY_ZERO",
        0xC000_0096 => "STATUS_PRIVILEGED_INSTRUCTION",
        0xC000_00FD => "STATUS_STACK_OVERFLOW",
        0xC000_013A => "STATUS_CONTROL_C_EXIT",
        0xC000_0409 => "STATUS_STACK_BUFFER_OVERRUN",
        _ => {
            if code <= 255 {
                return Ok(code as u8);
            } else {
                return Ok(1);
            }
        },
    };
    Err(Error::ExeKilled(owned(outfile), owned(name)))
}

} // verus!
