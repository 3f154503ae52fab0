use vango::action::clangd::compile_flags;
use vango::action::help::{help_lines, probe_line};
use vango::action::new::{manifest_text, new_directories, new_project_files, project_kind};
use vango::action::test::test_layout;
use vango::action::{artefact_paths, build_defines, cache_changed, cache_of, out_dir, settings_changed, unix_exit, windows_exit};
use vango::config::build::BuildProfile;
use vango::config::{Artefact, Language, Platform, Profile, Version, WarnLevel};
use vango::error::Error;
use vango::exec::Toolchain;

fn strings(v: &[&str]) -> Vec<String> {
    v.iter().map(|s| s.to_string()).collect()
}

#[test]
fn actions_output_layout() {
    assert_eq!(out_dir(Toolchain::Gcc, &Profile::Debug, Platform::Linux), "bin/debug");
    assert_eq!(out_dir(Toolchain::Zig, &Profile::Release, Platform::Linux), "bin/zig/release");
    assert_eq!(out_dir(Toolchain::Msvc, &Profile::Custom("fast".to_string()), Platform::Windows), "bin\\fast");
    assert_eq!(artefact_paths("app", Artefact::Executable, false, Toolchain::Gcc, "bin/debug", Platform::Linux), ("bin/debug/app".to_string(), None));
    assert_eq!(artefact_paths("core", Artefact::StaticLib, false, Toolchain::Gcc, "bin", Platform::Linux), ("bin/libcore.a".to_string(), None));
    assert_eq!(
        artefact_paths("core", Artefact::SharedLib, true, Toolchain::Msvc, "bin", Platform::Windows),
        ("bin\\core.dll".to_string(), Some("bin\\core.lib".to_string()))
    );
}

#[test]
fn actions_build_defines() {
    let defs = build_defines(&strings(&["DEP"]), &strings(&["VANGO_DEBUG"]), true, Artefact::SharedLib, "pkg", Version { major: 1, minor: 2, patch: 3 }, Platform::Windows);
    assert_eq!(
        defs,
        strings(&[
            "DEP",
            "VANGO_DEBUG",
            "VANGO_TEST",
            "UNICODE",
            "_UNICODE",
            "VANGO_EXPORT_SHARED",
            "VANGO_PKG_NAME=\"pkg\"",
            "VANGO_PKG_VERSION=\"1.2.3\"",
            "VANGO_PKG_VERSION_MAJOR=1",
            "VANGO_PKG_VERSION_MINOR=2",
            "VANGO_PKG_VERSION_PATCH=3",
        ])
    );
    let linux = build_defines(&vec![], &vec![], false, Artefact::Executable, "p", Version { major: 0, minor: 1, patch: 0 }, Platform::Linux);
    assert_eq!(linux.len(), 5);
}

#[test]
fn actions_settings_cache() {
    let s = BuildProfile::default_debug().settings;
    let old = cache_of(strings(&["A"]), s, false);
    assert!(!cache_changed(&cache_of(strings(&["A"]), s, false), &old));
    assert!(cache_changed(&cache_of(strings(&["B"]), s, false), &old));
    assert!(cache_changed(&cache_of(strings(&["A"]), s, true), &old));
    let mut stricter = s;
    stricter.warn_level = WarnLevel::High;
    assert!(!cache_changed(&cache_of(strings(&["A"]), stricter, false), &old));
    stricter.warn_as_error = true;
    assert!(cache_changed(&cache_of(strings(&["A"]), stricter, false), &old));
    assert!(settings_changed(&old, None));
}

#[test]
fn actions_exit_reports() {
    assert_eq!(unix_exit("app", None, false, Some(3)), Ok(3));
    assert_eq!(unix_exit("app", None, false, Some(300)), Ok(1));
    assert_eq!(unix_exit("app", Some(11), true, None), Err(Error::ExeKilled("app".to_string(), "SIGSEGV, core dumped".to_string())));
    assert_eq!(unix_exit("app", Some(99), false, None), Err(Error::ExeKilled("app".to_string(), "UNKNOWN SIGNAL".to_string())));
    assert_eq!(windows_exit("a.exe", 0xC000_00FD), Err(Error::ExeKilled("a.exe".to_string(), "STATUS_STACK_OVERFLOW".to_string())));
    assert_eq!(windows_exit("a.exe", 2), Ok(2));
    assert_eq!(windows_exit("a.exe", 256), Ok(1));
}

#[test]
fn actions_new_project() {
    assert_eq!(
        manifest_text("demo", false, true, false),
        "[package]\nname = \"demo\"\nversion = \"0.1.0\"\nlang = \"C++17\"\n\nwarn-level = \"high\"\niso-compliant = true\n\n[dependencies]\n"
    );
    assert_eq!(
        manifest_text("demo", true, false, true),
        "[package]\nname = \"demo\"\nversion = \"0.1.0\"\nlang = \"C11\"\nartefact = \"staticlib\"\n\n\n[dependencies]\n"
    );
    assert_eq!(new_directories("demo", true), strings(&["src", "include/demo"]));
    let files = new_project_files("demo", false, false, true);
    assert_eq!(files[0].0, "src/main.c");
    assert_eq!(files[0].1, "#include <stdio.h>\n\nint main() {\n    printf(\"Hello World!\\n\");\n}\n");
    assert_eq!(files[1].0, "Vango.toml");
    let files = new_project_files("demo", true, false, false);
    assert_eq!(files[0], ("include/demo/lib.h".to_string(), "#pragma once\n\nint func(int a, int b);\n".to_string()));
    assert_eq!(files[1].0, "src/lib.cpp");
    assert_eq!(project_kind(true), "library");
}

#[test]
fn actions_compile_flags() {
    let s = BuildProfile::default_debug().settings;
    let flags = compile_flags(
        Language::Cpp(120),
        s,
        &strings(&["SFML_STATIC"]),
        &strings(&["../sfml/include"]),
        &strings(&["src"]),
        Artefact::Executable,
        "game",
        Version { major: 0, minor: 2, patch: 0 },
        "/opt/vango/testframework",
        Platform::Linux,
    );
    assert_eq!(
        flags,
        strings(&[
            "-std=c++20",
            "-xc++",
            "-Wall",
            "-DSFML_STATIC",
            "-DVANGO_DEBUG",
            "-DVANGO_PKG_NAME=\"game\"",
            "-DVANGO_PKG_VERSION=\"0.2.0\"",
            "-DVANGO_PKG_VERSION_MAJOR=0",
            "-DVANGO_PKG_VERSION_MINOR=2",
            "-DVANGO_PKG_VERSION_PATCH=0",
            "-I../sfml/include",
            "-Isrc",
            "-I/opt/vango/testframework",
        ])
    );
}

#[test]
fn actions_test_layout_and_help() {
    let l = test_layout("core", Toolchain::Gcc, "bin/debug", Platform::Linux);
    assert_eq!(l.outdir, "bin/debug/test");
    assert_eq!(l.outfile, "bin/debug/test/test_core.exe");
    assert_eq!(l.archive, "core");
    assert_eq!(l.relink, "bin/debug/libcore.a");
    let l = test_layout("core", Toolchain::Msvc, "bin\\debug", Platform::Windows);
    assert_eq!(l.archive, "core.lib");
    assert_eq!(l.relink, "bin\\debug\\core.lib");
    let help = help_lines(Some("clean"), "1.0", "GCC");
    assert_eq!(help, strings(&["Remove all generated build files from the current project", "", "Usage: vango clean", ""]));
    let help = help_lines(Some("build"), "1.0", "GCC");
    assert!(help.contains(&"  -t, --toolchain=<TOOL>  Specify a toolchain for compilation (user default: GCC)".to_string()));
    let help = help_lines(None, "1.0", "GCC");
    assert_eq!(help[0], "VanGo 1.0 - C/C++ build automation tool");
    assert_eq!(help_lines(Some("bogus"), "1.0", "GCC"), strings(&[""]));
    assert_eq!(probe_line("gcc", Some("gcc 13.2")), "    gcc    - gcc 13.2");
    assert_eq!(probe_line("clang", None), "    clang  - unavailable");
}

#[test]
fn actions_relaxed_checks_keep_objects() {
    let mut strict = BuildProfile::default_debug().settings;
    strict.iso_compliant = true;
    strict.warn_as_error = true;
    let old = cache_of(strings(&["A"]), strict, false);
    let relaxed = BuildProfile::default_debug().settings;
    assert!(!relaxed.iso_compliant && !relaxed.warn_as_error);
    assert!(!cache_changed(&cache_of(strings(&["A"]), relaxed, false), &old));
    assert!(cache_changed(&old, &cache_of(strings(&["A"]), relaxed, false)));
    for tc in [Toolchain::Gcc, Toolchain::Msvc, Toolchain::ClangMingw, Toolchain::Emcc] {
        assert!(out_dir(tc, &Profile::Custom("x".to_string()), Platform::Linux).starts_with("bin/"));
    }
}

#[test]
fn actions_only_executables_run() {
    assert_eq!(vango::action::runnable(Artefact::Executable, "app"), Ok(()));
    assert_eq!(vango::action::runnable(Artefact::StaticLib, "core"), Err(Error::LibNotExe("core".to_string())));
    assert_eq!(vango::action::runnable(Artefact::SharedLib, "core"), Err(Error::LibNotExe("core".to_string())));
}
