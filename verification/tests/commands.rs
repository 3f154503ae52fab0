use vango::config::{Artefact, Language, Platform};
use vango::exec::{BuildInfo, CommandLine, PreCompHead, Toolchain};

const SRC: &str = "src/main.cpp";

fn args(cmd: &CommandLine) -> Vec<&str> {
    cmd.args.iter().map(|s| s.as_str()).collect()
}

fn compile(tc: Toolchain, info: &BuildInfo, obj: &str) -> CommandLine {
    tc.compiler().command(SRC, obj, info, &PreCompHead::NotUsed, false, Platform::Linux)
}

#[test]
pub fn mod_compile_cmd_gcc_dbg1() {
    let obj = "bin/debug/obj/main.o";
    let info = BuildInfo::mock_debug("bin/debug", Artefact::Executable, Language::Cpp(20), Toolchain::Gcc, vec![], false);
    let cmd = compile(Toolchain::Gcc, &info, obj);
    assert_eq!(cmd.program, "g++");
    assert_eq!(args(&cmd), ["-H", "-std=c++20", "-fpie", "-c", "-O0", "-g", "-Wall", "-Isrc", SRC, "-obin/debug/obj/main.o"]);
}

#[test]
pub fn compile_cmd_clang_mingw_dbg1() {
    let obj = "bin/debug/obj/main.o";
    let info = BuildInfo::mock_debug("bin/debug", Artefact::Executable, Language::Cpp(23), Toolchain::ClangMingw, vec![], true);
    let cmd = compile(Toolchain::ClangMingw, &info, obj);
    assert_eq!(cmd.program, "clang++");
    assert_eq!(
        args(&cmd),
        [
            "--target=x86_64-w64-mingw32", "-H", "-std=c++23", "-c", "-O0", "-g", "-Wall", "-Isrc", "-DUNICODE",
            "-D_UNICODE", SRC, "-obin/debug/obj/main.o",
        ]
    );
}

#[test]
pub fn compile_cmd_clang_gcc_dbg1() {
    let obj = "bin/debug/obj/main.o";
    let info = BuildInfo::mock_debug("bin/debug", Artefact::Executable, Language::Cpp(23), Toolchain::ClangGcc, vec![], true);
    let cmd = compile(Toolchain::ClangGcc, &info, obj);
    assert_eq!(cmd.program, "clang++");
    assert_eq!(args(&cmd), ["-H", "-std=c++23", "-fpie", "-c", "-O0", "-g", "-Wall", "-Isrc", SRC, "-obin/debug/obj/main.o"]);
}

#[test]
pub fn mod_compile_cmd_gcc_rel1() {
    let obj = "bin/release/obj/main.o";
    let info = BuildInfo::mock_release("bin/release", Artefact::Executable, Language::Cpp(20), Toolchain::Gcc, vec![], false);
    let cmd = compile(Toolchain::Gcc, &info, obj);
    assert_eq!(args(&cmd), ["-H", "-std=c++20", "-fpie", "-c", "-O3", "-flto", "-Wall", "-Isrc", SRC, "-obin/release/obj/main.o"]);
}

#[test]
pub fn mod_compile_cmd_gcc_rel2() {
    let obj = "bin/release/obj/main.o";
    let info = BuildInfo::mock_release("bin/release", Artefact::Executable, Language::Cpp(23), Toolchain::Gcc, vec![], true);
    let cmd = compile(Toolchain::Gcc, &info, obj);
    assert_eq!(args(&cmd), ["-H", "-std=c++23", "-fpie", "-c", "-O3", "-flto", "-Wall", "-Isrc", SRC, "-obin/release/obj/main.o"]);
}

#[test]
pub fn compile_cmd_gcc_staticlib() {
    let obj = "bin/release/obj/main.o";
    let info = BuildInfo::mock_debug("bin/release", Artefact::StaticLib, Language::Cpp(20), Toolchain::Gcc, vec![], true);
    let cmd = compile(Toolchain::Gcc, &info, obj);
    assert_eq!(args(&cmd), ["-H", "-std=c++20", "-fPIC", "-c", "-O0", "-g", "-Wall", "-Isrc", SRC, "-obin/release/obj/main.o"]);
}

#[test]
pub fn compile_cmd_mingw_sharedlib() {
    let obj = "bin/release/obj/main.o";
    let info = BuildInfo::mock_debug("bin/release", Artefact::SharedLib, Language::Cpp(20), Toolchain::Mingw, vec![], true);
    let cmd = compile(Toolchain::Mingw, &info, obj);
    assert_eq!(
        args(&cmd),
        ["-H", "-std=c++20", "-c", "-O0", "-g", "-Wall", "-Isrc", "-DUNICODE", "-D_UNICODE", SRC, "-obin/release/obj/main.o"]
    );
}

fn msvc_compile(tc: Toolchain, info: &BuildInfo) -> CommandLine {
    tc.compiler().command(SRC, "bin/debug/obj/main.obj", info, &PreCompHead::NotUsed, false, Platform::Windows)
}

#[test]
pub fn mod_compile_cmd_msvc_dbg() {
    let info = BuildInfo::mock_debug("bin/debug", Artefact::Executable, Language::Cpp(120), Toolchain::Msvc, vec![], false);
    let cmd = msvc_compile(Toolchain::Msvc, &info);
    assert_eq!(cmd.program, "cl");
    assert_eq!(
        args(&cmd),
        [
            "/nologo", "/showIncludes", "/diagnostics:caret", "/c", "/std:c++20", "/Zc:__cplusplus", "/MDd", "/Od", "/Zi",
            "/FS", "/sdl", "/Fd:bin\\debug\\", "/Zf", "/W1", "/EHsc", "/Isrc", "/DUNICODE", "/D_UNICODE", SRC,
            "/Fo:bin/debug/obj/main.obj",
        ]
    );
}

#[test]
pub fn mod_compile_cmd_msvc_dbg2() {
    let info = BuildInfo::mock_debug("bin/debug", Artefact::Executable, Language::Cpp(123), Toolchain::ClangMsvc, vec![], true);
    let cmd = msvc_compile(Toolchain::ClangMsvc, &info);
    assert_eq!(cmd.program, "clang-cl");
    assert_eq!(
        args(&cmd),
        [
            "/nologo", "/showIncludes", "/diagnostics:caret", "/c", "/std:c++latest", "/Zc:__cplusplus", "/MTd", "/Od",
            "/Zi", "/FS", "/sdl", "/Fd:bin\\debug\\", "/W1", "/EHsc", "/Isrc", "/DUNICODE", "/D_UNICODE", SRC,
            "/Fo:bin/debug/obj/main.obj",
        ]
    );
}

#[test]
pub fn mod_compile_cmd_msvc_rel1() {
    let info = BuildInfo::mock_release("bin/debug", Artefact::Executable, Language::Cpp(123), Toolchain::Msvc, vec![], false);
    let cmd = msvc_compile(Toolchain::Msvc, &info);
    assert_eq!(
        args(&cmd),
        [
            "/nologo", "/showIncludes", "/diagnostics:caret", "/c", "/std:c++latest", "/Zc:__cplusplus", "/MD", "/O2",
            "/Oi", "/GL", "/W1", "/EHsc", "/Isrc", "/DUNICODE", "/D_UNICODE", SRC, "/Fo:bin/debug/obj/main.obj",
        ]
    );
}

#[test]
pub fn mod_compile_cmd_msvc_rel2() {
    let info = BuildInfo::mock_release("bin/debug", Artefact::Executable, Language::Cpp(123), Toolchain::Msvc, vec![], true);
    let cmd = msvc_compile(Toolchain::Msvc, &info);
    assert_eq!(
        args(&cmd),
        [
            "/nologo", "/showIncludes", "/diagnostics:caret", "/c", "/std:c++latest", "/Zc:__cplusplus", "/MT", "/O2",
            "/Oi", "/GL", "/W1", "/EHsc", "/Isrc", "/DUNICODE", "/D_UNICODE", SRC, "/Fo:bin/debug/obj/main.obj",
        ]
    );
}

#[test]
fn commands_precompiled_headers() {
    let info = BuildInfo::mock_debug("bin/debug", Artefact::Executable, Language::Cpp(120), Toolchain::ClangGcc, vec![], false);
    let used = Toolchain::ClangGcc.compiler().command(
        SRC, "o", &info, &PreCompHead::Use("pre.h".to_string()), false, Platform::Linux);
    let a = args(&used);
    assert!(a.contains(&"-include-pch"));
    assert!(a.contains(&"bin\\debug/pch/pre.h.gch"));
    let info = BuildInfo::mock_debug("bin/debug", Artefact::Executable, Language::C(111), Toolchain::Gcc, vec![], false);
    let created = Toolchain::Gcc.compiler().command(
        "src/pre.h", "o", &info, &PreCompHead::Create("pre.h".to_string()), true, Platform::Linux);
    let a = args(&created);
    assert_eq!(created.program, "gcc");
    assert!(a.contains(&"-xc-header"));
    assert_eq!(a.last(), Some(&"--verbose"));
    let info = BuildInfo::mock_debug("bin\\debug", Artefact::Executable, Language::Cpp(120), Toolchain::Msvc, vec![], false);
    let msvc = Toolchain::Msvc.compiler().command(
        "src\\main.cpp", "x.obj", &info, &PreCompHead::Use("pre.h".to_string()), false, Platform::Windows);
    let a = args(&msvc);
    assert!(a.contains(&"/Yupre.h"));
    assert!(a.contains(&"/Fp:bin\\debug\\pch\\pre.h.pch"));
}

#[test]
fn commands_link_and_archive() {
    let mut info = BuildInfo::mock_release("bin/release/app", Artefact::Executable, Language::Cpp(120), Toolchain::Gcc, vec![], true);
    info.libdirs = vec!["lib".to_string()];
    info.archives = vec!["m".to_string()];
    let link = Toolchain::Gcc.linker().command(vec!["a.o".to_string()], &info, false, Platform::Linux);
    assert_eq!(link.program, "g++");
    assert_eq!(args(&link), ["-pie", "-static-libstdc++", "-static-libgcc", "-flto", "a.o", "-Llib", "-lm", "-obin/release/app"]);
    info.toolchain = Toolchain::Msvc;
    info.outfile = "app.exe".to_string();
    let link = Toolchain::Msvc.linker().command(vec!["a.obj".to_string()], &info, false, Platform::Windows);
    assert_eq!(link.program, "LINK");
    assert_eq!(&args(&link)[..5], ["/NOLOGO", "/MACHINE:X64", "/DYNAMICBASE", "/LTCG", "/OPT:REF"]);
    assert_eq!(args(&link).last(), Some(&"/OUT:app.exe"));
    let ar = Toolchain::Gcc.archiver().command(vec!["a.o".to_string()], &info, true);
    assert_eq!(ar.program, "ar");
    assert_eq!(args(&ar), ["rcsv", "app.exe", "a.o"]);
    let lib = Toolchain::Msvc.archiver().command(vec!["a.obj".to_string()], &info, false);
    assert_eq!(lib.program, "LIB");
    assert_eq!(args(&lib), ["/NOLOGO", "/MACHINE:X64", "/LTCG", "a.obj", "/OUT:app.exe"]);
    let zig = Toolchain::Zig.archiver().command(vec![], &info, false);
    assert_eq!(zig.program, "zig");
    assert_eq!(args(&zig), ["ar", "rcs", "app.exe"]);
}

#[test]
fn commands_mock_base() {
    let info = BuildInfo::mock_base("out");
    assert_eq!(info.toolchain, Toolchain::Msvc);
    assert_eq!(info.outdir, "bin\\debug");
    assert_eq!(info.incdirs, vec!["src".to_string()]);
    assert!(info.defines.is_empty());
}

#[test]
fn commands_msvc_c23_uses_latest() {
    let info = BuildInfo::mock_debug("bin\\debug\\app.exe", Artefact::Executable, Language::C(123), Toolchain::Msvc, vec![], false);
    let args = vango::exec::msvc::compiler_args("src\\main.c", "bin\\debug\\obj\\main.obj", &info, &PreCompHead::NotUsed, Platform::Windows);
    assert!(args.contains(&"/std:clatest".to_string()));
    assert!(!args.contains(&"/std:c23".to_string()));
    assert!(args.contains(&"/TC".to_string()));
    assert!(!args.contains(&"/Zc:__cplusplus".to_string()));
}
