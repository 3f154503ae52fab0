use vango::config::Platform::{Linux, Windows};
use vango::exec::incremental::object_source;
use vango::paths::{is_below, is_file_name};
use vango::config::Platform;
use vango::exec::output::{gnu_archiver, gnu_compiler, gnu_linker, lld_linker, msvc_compiler_err, msvc_compiler_out, msvc_linker, Level};
use vango::paths::{file_stem, join, strip_dir, with_extension};
use vango::text::{contains_str, find, parse_u32, split_char, to_ascii_lowercase, to_ascii_uppercase, u32_to_string};

#[test]
fn text_helpers() {
    assert_eq!(parse_u32("+42"), Some(42));
    assert_eq!(parse_u32("4294967296"), None);
    assert_eq!(u32_to_string(907), "907");
    assert_eq!(split_char("a..b", '.'), vec!["a".to_string(), "".to_string(), "b".to_string()]);
    assert_eq!(to_ascii_lowercase("C++Ü"), "c++Ü");
    assert_eq!(to_ascii_uppercase("c++17"), "C++17");
    assert_eq!(find("abcabc", "ca"), Some(2));
    assert!(!contains_str("abc", "abcd"));
}

#[test]
fn paths_like_std() {
    assert_eq!(join(Platform::Linux, "bin", "debug"), "bin/debug");
    assert_eq!(join(Platform::Linux, "bin/", "debug"), "bin/debug");
    assert_eq!(join(Platform::Linux, "bin", "/abs"), "/abs");
    assert_eq!(join(Platform::Windows, "bin", "debug"), "bin\\debug");
    assert_eq!(join(Platform::Linux, "", "x"), "x");
    assert_eq!(with_extension(Platform::Linux, "a/b.tar.gz", "o"), "a/b.tar.o");
    assert_eq!(with_extension(Platform::Linux, "a.d/b", "o"), "a.d/b.o");
    assert_eq!(with_extension(Platform::Linux, "pre.h", "h.pch"), "pre.h.pch");
    assert_eq!(strip_dir("src/a/b.cpp", "src", Platform::Linux), "a/b.cpp");
    assert_eq!(file_stem("https://x/y/SFML.git", Platform::Linux), "SFML");
    assert_eq!(file_stem("dir/.bashrc", Platform::Linux), ".bashrc");
    assert_eq!(file_stem("dir/name/", Platform::Linux), "name");
}

#[test]
fn output_classification() {
    let lines: Vec<String> = [
        "src/a.cpp: In function 'int main()':",
        ". src/a.h",
        "src/a.cpp:3: error: boom",
        "! skipped",
        "hidden line",
        "Multiple include guards may be useful for:",
        "guard.h",
        "src/a.cpp:4: warning: careful",
        "/usr/include/stdio.h",
        "plain",
    ]
    .iter()
    .map(|s| s.to_string())
    .collect();
    let out = gnu_compiler(&lines, Platform::Linux);
    assert_eq!(
        out,
        vec![
            (Level::Error, "src/a.cpp:3: error: boom".to_string()),
            (Level::Warn, "src/a.cpp:4: warning: careful".to_string()),
            (Level::Plain, "plain".to_string()),
        ]
    );
    assert_eq!(gnu_linker("collect2.exe: error"), None);
    assert_eq!(gnu_linker("C:/x/ld.exe: cannot find -lfoo"), Some((Level::Error, "ld.exe: cannot find -lfoo".to_string())));
    assert_eq!(gnu_linker("undefined reference"), Some((Level::Error, "undefined reference".to_string())));
    assert_eq!(gnu_archiver(0, "ar: x").0, Level::Error);
    assert_eq!(gnu_archiver(1, "more").0, Level::Plain);
    assert_eq!(msvc_compiler_err("cl : Command line warning D9002"), Level::Warn);
    assert_eq!(msvc_compiler_out("Note: including file: a.h"), None);
    assert_eq!(msvc_compiler_out("a.cpp(3): error C2065: x"), Some(Level::Error));
    assert_eq!(msvc_linker("Generating code"), None);
    assert_eq!(msvc_linker("a.obj : error LNK2019: x"), Some(Level::Error));
    assert_eq!(lld_linker("lld-link: warning: x"), Level::Warn);
}

#[test]
fn output_styles() {
    assert_eq!(vango::exec::output::compiler_style(vango::exec::Toolchain::Msvc), vango::exec::output::Style::Msvc);
    assert_eq!(vango::exec::output::compiler_style(vango::exec::Toolchain::ClangMsvc), vango::exec::output::Style::Gnu);
    assert_eq!(vango::exec::output::linker_style(vango::exec::Toolchain::ClangMsvc), vango::exec::output::Style::Lld);
    assert_eq!(vango::exec::output::linker_style(vango::exec::Toolchain::Msvc), vango::exec::output::Style::Msvc);
    assert_eq!(vango::exec::output::linker_style(vango::exec::Toolchain::Zig), vango::exec::output::Style::Gnu);
}

#[test]
fn output_errors_never_hidden() {
    let lines: Vec<String> = [
        "! hides the next line",
        "main.c:3: error: expected ';'",
        "Multiple include guards may be useful for:",
        "src/a.h",
        "main.c:9: warning: unused variable",
        "src/b.h",
    ]
    .iter()
    .map(|s| s.to_string())
    .collect();
    let report = vango::exec::output::gnu_compiler(&lines, vango::config::Platform::Linux);
    assert_eq!(
        report,
        vec![
            (vango::exec::output::Level::Error, "main.c:3: error: expected ';'".to_string()),
            (vango::exec::output::Level::Warn, "main.c:9: warning: unused variable".to_string()),
            (vango::exec::output::Level::Plain, "src/b.h".to_string()),
        ]
    );
}

#[test]
fn paths_checks_and_stale_objects() {
    assert!(is_below("src/a.cpp", "src", Linux));
    assert!(!is_below("srcx/a.cpp", "src", Linux));
    assert!(!is_below("src", "src", Linux));
    assert!(is_below("src\\a.cpp", "src", Windows));
    assert!(!is_below("src\\a.cpp", "src", Linux));
    assert!(is_file_name("https://github.com/SFML/SFML.git", Linux));
    assert!(is_file_name("a/b/", Linux));
    assert!(!is_file_name("a/..", Linux));
    assert!(!is_file_name("./", Linux));
    assert!(!is_file_name("", Linux));
    assert_eq!(
        object_source("bin/debug/obj/ui/view.o", "bin/debug/obj", "src", "o", "cpp", Linux),
        Some("src/ui/view.cpp".to_string())
    );
    assert_eq!(object_source("bin/debug/obj/pch.h.obj", "bin/debug/obj", "src", "obj", "cpp", Linux), None);
    assert_eq!(object_source("bin/debug/obj/main.obj", "bin/debug/obj", "src", "obj", "c", Linux), Some("src/main.c".to_string()));
    assert_eq!(object_source("bin/debug/obj/main.obj", "bin/debug/obj", "src", "o", "c", Linux), None);
    assert_eq!(object_source("bin/debug/obj/.o", "bin/debug/obj", "src", "o", "c", Linux), None);
    assert_eq!(object_source("elsewhere/main.o", "bin/debug/obj", "src", "o", "c", Linux), None);
}
