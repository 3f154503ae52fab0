//! The help texts: per action, and the toolchains found on the system.
use vstd::prelude::*;

use crate::exec::run::pad_right;
use crate::text::{concat, concat3, owned, str_eq, strs};

verus! {

/// The options and profiles shared by the build actions.
pub open spec fn build_details(default_tc: Seq<char>) -> Seq<Seq<char>> {
    seq![
        "Options:"@,
        "  -d, --debug             Build project in debug profile (default)"@,
        "  -r, --release           Build project in release profile"@,
        "  -t, --toolchain=<TOOL>  Specify a toolchain for compilation (user default: "@ + default_tc + ")"@,
        "      --install           On unix-like systems: installs headers and binaries into /usr/local/* on build"@,
        "      --crtstatic         Link statically with the C runtime library"@,
        "      --echo              Echo the entire build command composed by vango"@,
        "  -v, --verbose           Forward '--verbose' to invoked tool, if available"@,
        ""@,
        "Profiles:"@,
        "    debug    Build with no optimization; Generate debug symbols; 'VANGO_DEBUG' macro defined; Generally faster compile times;"@,
        "    release  Build with high optimization; 'VANGO_RELEASE' macro defined; Generally slower compile times;"@,
    ]
}

pub open spec fn project_options() -> Seq<Seq<char>> {
    seq![
        "Options:"@,
        "    --lib  Generate library boilerplate instead of application"@,
        "    --c    Generate C boilerplate instead of C++"@,
    ]
}

/// The help text of an action (the toolchains excepted), or the overview, one entry per
/// line, ending with an empty line.
pub open spec fn help_spec(action: Option<Seq<char>>, version: Seq<char>, default_tc: Seq<char>) -> Seq<Seq<char>> {
    (match action {
        Some(a) => if a == "new"@ {
            seq!["Create a new folder with a boilerplate C++ project"@, ""@, "Usage: vango new <NAME> [OPTIONS]"@, ""@]
                + project_options()
        } else if a == "init"@ {
            seq!["Create a boilerplate C++ project inside an existing folder"@, ""@, "Usage: vango init [OPTIONS]"@, ""@]
                + project_options()
        } else if a == "clean"@ {
            seq!["Remove all generated build files from the current project"@, ""@, "Usage: vango clean"@]
        } else if a == "clangd"@ {
            seq![
                "Generate 'compile_flags.txt corresponding to the current project (language standard, include dirs, definitions"@,
                ""@,
                "Usage: vango clangd"@,
            ]
        } else if a == "build"@ {
            seq!["Build the current project"@, ""@, "Usage: vango build [OPTIONS]"@, ""@] + build_details(default_tc)
        } else if a == "run"@ {
            seq![
                "Build and run the current project, with the working directory as the project root, and forwarding commandline arguments"@,
                ""@,
                "Usage: vango run [OPTIONS] [-- ARGS]"@,
                ""@,
            ] + build_details(default_tc)
        } else if a == "test"@ {
            seq![
                "Build the current project in test configuration, link it to your test app and run it. Defines 'VANGO_TEST'."@,
                ""@,
                "Usage: vango test [OPTIONS] [TESTS]"@,
                ""@,
            ] + build_details(default_tc)
        } else {
            Seq::empty()
        },
        None => seq![
            "VanGo "@ + version + " - C/C++ build automation tool"@,
            ""@,
            "Usage: vango [ACTION] [OPTIONS]"@,
            ""@,
            "Commands:"@,
            "    new         Create a new empty project"@,
            "    init        Create a new empty project in an existing location"@,
            "    help        Display help about a command (list toolchains with 'help toolchains')"@,
            "    clean, c    Remove all build files of the current project"@,
            "    build, b    Build the current project"@,
            "    run,   r    Build the current project and run it"@,
            "    test,  t    Build the current project and test it"@,
            "    clangd      Generate 'compile_flags.txt for the current project"@,
        ],
    }) + seq![""@]
}

fn lines_of(v: &mut Vec<String>, items: &[&str])
    ensures
        strs(final(v)@) == strs(old(v)@) + items@.map_values(|s: &str| s@),
{
    let ghost start = strs(v@);
    let mut k: usize = 0;
    while k < items.len()
        invariant
            k <= items@.len(),
            strs(v@) == start + items@.take(k as int).map_values(|s: &str| s@),
        decreases items@.len() - k,
    {
        let ghost before = strs(v@);
        v.push(owned(items[k]));
        assert(strs(v@) =~= before.push(items@[k as int]@));
        assert(items@.take(k + 1).map_values(|s: &str| s@) =~= items@.take(k as int).map_values(
            |s: &str| s@,
        ).push(items@[k as int]@));
        k = k + 1;
    }
    assert(items@.take(items@.len() as int) =~= items@);
}

fn push_line(v: &mut Vec<String>, s: String)
    ensures
        strs(final(v)@) == strs(old(v)@) + seq![s@],
{
    let ghost before = strs(v@);
    let ghost t = s@;
    v.push(s);
    assert(strs(v@) =~= before + seq![t]);
}

fn build_details_lines(default_tc: &str) -> (res: Vec<String>)
    ensures
        strs(res@) == build_details(default_tc@),
{
    let mut v: Vec<String> = Vec::new();
    lines_of(
        &mut v,
        &[
            "Options:",
            "  -d, --debug             Build project in debug profile (default)",
            "  -r, --release           Build project in release profile",
        ],
    );
    push_line(
        &mut v,
        concat3(
            "  -t, --toolchain=<TOOL>  Specify a toolchain for compilation (user default: ",
            default_tc,
            ")",
        ),
    );
    lines_of(
        &mut v,
        &[
            "      --install           On unix-like systems: installs headers and binaries into /usr/local/* on build",
            "      --crtstatic         Link statically with the C runtime library",
            "      --echo              Echo the entire build command composed by vango",
            "  -v, --verbose           Forward '--verbose' to invoked tool, if available",
            "",
            "Profiles:",
            "    debug    Build with no optimization; Generate debug symbols; 'VANGO_DEBUG' macro defined; Generally faster compile times;",
            "    release  Build with high optimization; 'VANGO_RELEASE' macro defined; Generally slower compile times;",
        ],
    );
    assert(strs(v@) =~= build_details(default_tc@));
    v
}

/// The help text of an action, or the overview when none is named.
pub fn help_lines(action: Option<&str>, version: &str, default_tc: &str) -> (res: Vec<String>)
    ensures
        strs(res@) == help_spec(
            match action {
                Some(a) => Some(a@),
                None => None,
            },
            version@,
            default_tc@,
        ),
{
    let mut v: Vec<String> = Vec::new();
    match action {
        Some(a) => {
            if str_eq(a, "new") {
                lines_of(&mut v, &["Create a new folder with a boilerplate C++ project", "", "Usage: vango new <NAME> [OPTIONS]", ""]);
                lines_of(&mut v, &["Options:", "    --lib  Generate library boilerplate instead of application", "    --c    Generate C boilerplate instead of C++"]);
            } else if str_eq(a, "init") {
                lines_of(&mut v, &["Create a boilerplate C++ project inside an existing folder", "", "Usage: vango init [OPTIONS]", ""]);
                lines_of(&mut v, &["Options:", "    --lib  Generate library boilerplate instead of application", "    --c    Generate C boilerplate instead of C++"]);
            } else if str_eq(a, "clean") {
                lines_of(&mut v, &["Remove all generated build files from the current project", "", "Usage: vango clean"]);
            } else if str_eq(a, "clangd") {
                lines_of(&mut v, &["Generate 'compile_flags.txt corresponding to the current project (language standard, include dirs, definitions", "", "Usage: vango clangd"]);
            } else if str_eq(a, "build") {
                lines_of(&mut v, &["Build the current project", "", "Usage: vango build [OPTIONS]", ""]);
                let d = build_details_lines(default_tc);
                let ghost a0 = strs(v@);
                let mut d = d;
                v.append(&mut d);
                assert(strs(v@) =~= a0 + build_details(default_tc@));
            } else if str_eq(a, "run") {
                lines_of(&mut v, &["Build and run the current project, with the working directory as the project root, and forwarding commandline arguments", "", "Usage: vango run [OPTIONS] [-- ARGS]", ""]);
                let d = build_details_lines(default_tc);
                let ghost a0 = strs(v@);
                let mut d = d;
                v.append(&mut d);
                assert(strs(v@) =~= a0 + build_details(default_tc@));
            } else if str_eq(a, "test") {
                lines_of(&mut v, &["Build the current project in test configuration, link it to your test app and run it. Defines 'VANGO_TEST'.", "", "Usage: vango test [OPTIONS] [TESTS]", ""]);
                let d = build_details_lines(default_tc);
                let ghost a0 = strs(v@);
                let mut d = d;
                v.append(&mut d);
                assert(strs(v@) =~= a0 + build_details(default_tc@));
            }
        },
        None => {
            push_line(&mut v, concat3("VanGo ", version, " - C/C++ build automation tool"));
            lines_of(
                &mut v,
                &[
                    "",
                    "Usage: vango [ACTION] [OPTIONS]",
                    "",
                    "Commands:",
                    "    new         Create a new empty project",
                    "    init        Create a new empty project in an existing location",
                    "    help        Display help about a command (list toolchains with 'help toolchains')",
                    "    clean, c    Remove all build files of the current project",
                    "    build, b    Build the current project",
                    "    run,   r    Build the current project and run it",
                    "    test,  t    Build the current project and test it",
                    "    clangd      Generate 'compile_flags.txt for the current project",
                ],
            );
        },
    }
    let ghost body = strs(v@);
    v.push(owned(""));
    assert(strs(v@) =~= body + seq![""@]);
    assert(strs(v@) =~= help_spec(
        match action {
            Some(a) => Some(a@),
            None => None,
        },
        version@,
        default_tc@,
    ));
    v
}

/// One line of the toolchain survey: the label padded to six characters, then the
/// first line the tool printed about its version, or that it is unavailable.
pub open spec fn probe_line_spec(label: Seq<char>, first_line: Option<Seq<char>>) -> Seq<char> {
    "    "@ + pad_right(label, ' ', 6) + " - "@ + match first_line {
        Some(l) => l,
        None => "unavailable"@,
    }
}

pub fn probe_line(label: &str, first_line: Option<&str>) -> (res: String)
    ensures
        res@ == probe_line_spec(
            label@,
            match first_line {
                Some(l) => Some(l@),
                None => None,
            },
        ),
{
    let padded = crate::exec::run::pad(owned(label), ' ', 6);
    let head = concat3("    ", padded.as_str(), " - ");
    match first_line {
        Some(l) => concat(head.as_str(), l),
        None => concat(head.as_str(), "unavailable"),
    }
}

} // verus!
