//! The files a new project starts with.
use vstd::prelude::*;
use crate::text::{concat, concat3, owned, strs};

verus! {

/// The standard a new project is written in.
pub open spec fn new_lang(is_c: bool) -> Seq<char> {
    if is_c { "C11"@ } else { "C++17"@ }
}

pub open spec fn new_ext(is_c: bool) -> Seq<char> {
    if is_c { "c"@ } else { "cpp"@ }
}

/// The stricter checks a strict project turns on.
pub open spec fn strict_settings(strict: bool) -> Seq<char> {
    if strict { "warn-level = \"high\"\niso-compliant = true\n"@ } else { Seq::empty() }
}

/// The manifest of a new project; a library is built as a static library.
pub open spec fn new_manifest(name: Seq<char>, library: bool, strict: bool, is_c: bool) -> Seq<char> {
    "[package]\nname = \""@ + name + "\"\nversion = \"0.1.0\"\nlang = \""@ + new_lang(is_c) + "\"\n"@
        + (if library { "artefact = \"staticlib\"\n"@ } else { Seq::empty() }) + "\n"@ + strict_settings(
        strict,
    ) + "\n[dependencies]\n"@
}

pub open spec fn lib_header(is_c: bool) -> Seq<char> {
    if is_c {
        "#ifndef LIB_H\n#define LIB_H\n\nint func(int a, int b);\n\n#endif"@
    } else {
        "#pragma once\n\nint func(int a, int b);\n"@
    }
}

pub open spec fn lib_source(name: Seq<char>) -> Seq<char> {
    "#include \""@ + name + "/lib.h\"\n\nint func(int a, int b) {\n    return a + b;\n}\n"@
}

pub open spec fn main_source(is_c: bool) -> Seq<char> {
    "#include <"@ + (if is_c { "stdio.h"@ } else { "cstdio"@ })
        + ">\n\nint main() {\n    printf(\"Hello World!\\n\");\n}\n"@
}

/// The directories a new project creates, in order.
pub open spec fn new_dirs(name: Seq<char>, library: bool) -> Seq<Seq<char>> {
    if library { seq!["src"@, "include/"@ + name] } else { seq!["src"@] }
}

/// The files a new project writes, path and text, in order: a library's header and
/// source, or an application's main source, then the manifest.
pub open spec fn new_files(name: Seq<char>, library: bool, strict: bool, is_c: bool) -> Seq<(Seq<char>, Seq<char>)> {
    if library {
        seq![
            ("include/"@ + name + "/lib.h"@, lib_header(is_c)),
            ("src/lib."@ + new_ext(is_c), lib_source(name)),
            ("Vango.toml"@, new_manifest(name, library, strict, is_c)),
        ]
    } else {
        seq![
            ("src/main."@ + new_ext(is_c), main_source(is_c)),
            ("Vango.toml"@, new_manifest(name, library, strict, is_c)),
        ]
    }
}

pub open spec fn files_view(v: Seq<(String, String)>) -> Seq<(Seq<char>, Seq<char>)> {
    v.map_values(|p: (String, String)| (p.0@, p.1@))
}

pub fn manifest_text(name: &str, library: bool, strict: bool, is_c: bool) -> (res: String)
    ensures
        res@ == new_manifest(name@, library, strict, is_c),
{
    let lang = if is_c { "C11" } else { "C++17" };
    assert(""@ == Seq::<char>::empty()) by {
        reveal_strlit("");
    }
    let a = concat3("[package]\nname = \"", name, "\"\nversion = \"0.1.0\"\nlang = \"");
    let b = concat3(a.as_str(), lang, "\"\n");
    let c = concat3(b.as_str(), if library { "artefact = \"staticlib\"\n" } else { "" }, "\n");
    let d = concat3(
        c.as_str(),
        if strict { "warn-level = \"high\"\niso-compliant = true\n" } else { "" },
        "\n[dependencies]\n",
    );
    d
}

pub fn new_directories(name: &str, library: bool) -> (res: Vec<String>)
    ensures
        strs(res@) == new_dirs(name@, library),
{
    let mut v: Vec<String> = Vec::new();
    v.push(owned("src"));
    if library {
        v.push(concat("include/", name));
    }
    assert(strs(v@) =~= new_dirs(name@, library));
    v
}

/// The files to write for a new project called `name`.
pub fn new_project_files(name: &str, library: bool, strict: bool, is_c: bool) -> (res: Vec<(String, String)>)
    ensures
        files_view(res@) == new_files(name@, library, strict, is_c),
{
    let ext = if is_c { "c" } else { "cpp" };
    let toml = manifest_text(name, library, strict, is_c);
    let mut v: Vec<(String, String)> = Vec::new();
    if library {
        let header = if is_c {
            owned("#ifndef LIB_H\n#define LIB_H\n\nint func(int a, int b);\n\n#endif")
        } else {
            owned("#pragma once\n\nint func(int a, int b);\n")
        };
        v.push((concat3("include/", name, "/lib.h"), header));
        v.push(
            (
                concat("src/lib.", ext),
                concat3(
                    "#include \"",
                    name,
                    "/lib.h\"\n\nint func(int a, int b) {\n    return a + b;\n}\n",
                ),
            ),
        );
    } else {
        let main = concat3(
            "#include <",
            if is_c { "stdio.h" } else { "cstdio" },
            ">\n\nint main() {\n    printf(\"Hello World!\\n\");\n}\n",
        );
        v.push((concat("src/main.", ext), main));
    }
    v.push((owned("Vango.toml"), toml));
    assert(files_view(v@) =~= new_files(name@, library, strict, is_c));
    v
}

/// What kind of project is being created, as announced.
pub fn project_kind(library: bool) -> (res: &'static str)
    ensures
        res@ == (if library { "library"@ } else { "application"@ }),
{
    if library { "library" } else { "application" }
}

} // verus!
