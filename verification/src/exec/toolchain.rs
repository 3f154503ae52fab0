//! The supported toolchains and the properties that decide how a build is driven.
use vstd::prelude::*;
use crate::config::Platform;
use crate::error::Error;
use crate::text::{str_eq, owned, concat3};

verus! {

#[derive(Debug, Clone, Copy, PartialEq, Eq, Structural)]
pub enum Toolchain {
    Msvc,
    Gcc,
    Mingw,
    ClangMsvc,
    ClangGcc,
    ClangMingw,
    Zig,
    Emcc,
}

/// The name of each toolchain as written on the command line and in manifests.
pub open spec fn toolchain_name(t: Toolchain) -> Seq<char> {
    match t {
        Toolchain::Msvc => "msvc"@,
        Toolchain::Gcc => "gcc"@,
        Toolchain::Mingw => "mingw"@,
        Toolchain::ClangMsvc => "clang-msvc"@,
        Toolchain::ClangGcc => "clang-gcc"@,
        Toolchain::ClangMingw => "clang-mingw"@,
        Toolchain::Zig => "zig"@,
        Toolchain::Emcc => "emcc"@,
    }
}

/// The human readable name of each toolchain.
pub open spec fn toolchain_title(t: Toolchain) -> Seq<char> {
    match t {
        Toolchain::Msvc => "MSVC"@,
        Toolchain::Gcc => "GCC"@,
        Toolchain::Mingw => "MinGW"@,
        Toolchain::ClangMsvc => "Clang (MSVC backend)"@,
        Toolchain::ClangGcc => "Clang (GNU backend)"@,
        Toolchain::ClangMingw => "Clang (MinGW backend)"@,
        Toolchain::Zig => "Zig"@,
        Toolchain::Emcc => "Emscripten"@,
    }
}

pub open spec fn spec_system_default(p: Platform) -> Toolchain {
    match p {
        Platform::Windows => Toolchain::Msvc,
        Platform::Linux => Toolchain::Gcc,
        Platform::Macos => Toolchain::ClangGcc,
    }
}

pub open spec fn msvc_compatible(t: Toolchain) -> bool {
    t == Toolchain::Msvc || t == Toolchain::ClangMsvc
}

pub open spec fn llvm_based(t: Toolchain) -> bool {
    t == Toolchain::ClangMsvc || t == Toolchain::ClangGcc || t == Toolchain::ClangMingw
        || t == Toolchain::Zig || t == Toolchain::Emcc
}

pub open spec fn windows_targeting(t: Toolchain) -> bool {
    t == Toolchain::Msvc || t == Toolchain::Mingw || t == Toolchain::ClangMsvc
        || t == Toolchain::ClangMingw
}

/// `name` with the extension `ext` added after a dot, as `PathBuf::with_added_extension`
/// does for a plain file name; an empty name is left empty.
pub open spec fn with_added_ext(name: Seq<char>, ext: Seq<char>) -> Seq<char> {
    if name.len() == 0 { name } else { name + "."@ + ext }
}

pub fn add_extension(name: &str, ext: &str) -> (res: String)
    ensures
        res@ == with_added_ext(name@, ext@),
{
    if name.unicode_len() == 0 {
        owned(name)
    } else {
        concat3(name, ".", ext)
    }
}

impl Toolchain {
    /// The toolchain a platform builds with when nothing else is asked for.
    pub fn system_default(platform: Platform) -> (res: Toolchain)
        ensures
            res == spec_system_default(platform),
    {
        match platform {
            Platform::Windows => Toolchain::Msvc,
            Platform::Linux => Toolchain::Gcc,
            Platform::Macos => Toolchain::ClangGcc,
        }
    }

    /// The toolchain a user asked for through their environment (`setting`), falling back
    /// to the platform default when nothing, or nothing valid, was set.
    pub fn user_default(setting: Option<&str>, platform: Platform) -> (res: Toolchain)
        ensures
            res == (match setting {
                Some(s) => match toolchain_from_name(s@) {
                    Some(t) => t,
                    None => spec_system_default(platform),
                },
                None => spec_system_default(platform),
            }),
    {
        match setting {
            Some(s) => match Toolchain::from_str(s) {
                Ok(t) => t,
                Err(_) => Toolchain::system_default(platform),
            },
            None => Toolchain::system_default(platform),
        }
    }

    /// The directory, below `bin`, that holds what this toolchain built.
    pub fn as_directory(self) -> (res: &'static str)
        ensures
            res@ == toolchain_name(self),
    {
        match self {
            Toolchain::Msvc => "msvc",
            Toolchain::Gcc => "gcc",
            Toolchain::Mingw => "mingw",
            Toolchain::ClangMsvc => "clang-msvc",
            Toolchain::ClangGcc => "clang-gcc",
            Toolchain::ClangMingw => "clang-mingw",
            Toolchain::Zig => "zig",
            Toolchain::Emcc => "emcc",
        }
    }

    pub fn is_msvc_compatible(self) -> (res: bool)
        ensures
            res == msvc_compatible(self),
    {
        matches!(self, Toolchain::Msvc | Toolchain::ClangMsvc)
    }

    pub fn is_gcc_compatible(self) -> (res: bool)
        ensures
            res == (self == Toolchain::Gcc || self == Toolchain::ClangGcc || self == Toolchain::Zig
                || self == Toolchain::Emcc),
    {
        matches!(self, Toolchain::Gcc | Toolchain::ClangGcc | Toolchain::Zig | Toolchain::Emcc)
    }

    pub fn is_llvm(self) -> (res: bool)
        ensures
            res == llvm_based(self),
    {
        matches!(
            self,
            Toolchain::ClangMsvc | Toolchain::ClangGcc | Toolchain::ClangMingw | Toolchain::Zig
                | Toolchain::Emcc
        )
    }

    pub fn is_emcc(self) -> (res: bool)
        ensures
            res == (self == Toolchain::Emcc),
    {
        matches!(self, Toolchain::Emcc)
    }

    /// Whether this toolchain can build on `platform`.
    pub fn supports(self, platform: Platform) -> (res: bool)
        ensures
            res == (match platform {
                Platform::Windows => self != Toolchain::Gcc && self != Toolchain::ClangGcc,
                Platform::Linux | Platform::Macos => self == Toolchain::Gcc || self
                    == Toolchain::ClangGcc || self == Toolchain::Zig || self == Toolchain::Emcc,
            }),
    {
        match platform {
            Platform::Windows => matches!(
                self,
                Toolchain::Msvc | Toolchain::Mingw | Toolchain::ClangMsvc | Toolchain::ClangMingw
                    | Toolchain::Zig | Toolchain::Emcc
            ),
            Platform::Linux => matches!(
                self,
                Toolchain::Gcc | Toolchain::ClangGcc | Toolchain::Zig | Toolchain::Emcc
            ),
            Platform::Macos => matches!(
                self,
                Toolchain::Gcc | Toolchain::ClangGcc | Toolchain::Zig | Toolchain::Emcc
            ),
        }
    }

    /// Whether this toolchain produces Windows binaries.
    pub fn is_windows(self) -> (res: bool)
        ensures
            res == windows_targeting(self),
    {
        matches!(
            self,
            Toolchain::Msvc | Toolchain::Mingw | Toolchain::ClangMsvc | Toolchain::ClangMingw
        )
    }

    /// The file name of an executable called `name`.
    pub fn fmt_executable(self, name: &str) -> (res: String)
        ensures
            res@ == name@,
    {
        owned(name)
    }

    /// The file name of a static library called `name`: `name.lib` for MSVC-style
    /// toolchains, `libname.a` for the others.
    pub fn fmt_static_lib(self, name: &str) -> (res: String)
        ensures
            res@ == (if msvc_compatible(self) {
                with_added_ext(name@, "lib"@)
            } else {
                "lib"@ + name@ + ".a"@
            }),
    {
        if self.is_msvc_compatible() {
            add_extension(name, "lib")
        } else {
            concat3("lib", name, ".a")
        }
    }

    /// The extension of the object files this toolchain writes.
    pub fn object_extension(self) -> (res: &'static str)
        ensures
            res@ == (if msvc_compatible(self) { "obj"@ } else { "o"@ }),
    {
        if self.is_msvc_compatible() {
            "obj"
        } else {
            "o"
        }
    }

    pub fn compiler(self) -> (res: Compiler)
        ensures
            res.0 == self,
    {
        Compiler(self)
    }

    pub fn linker(self) -> (res: Linker)
        ensures
            res.0 == self,
    {
        Linker(self)
    }

    pub fn archiver(self) -> (res: Archiver)
        ensures
            res.0 == self,
    {
        Archiver(self)
    }

    /// Reads a toolchain from its name.
    pub fn from_str(s: &str) -> (res: Result<Toolchain, Error>)
        ensures
            match toolchain_from_name(s@) {
                Some(t) => res == Ok::<Toolchain, Error>(t),
                None => res matches Err(Error::UnknownToolchain(m)) && m@ == s@,
            },
    {
        if str_eq(s, "msvc") {
            Ok(Toolchain::Msvc)
        } else if str_eq(s, "gcc") {
            Ok(Toolchain::Gcc)
        } else if str_eq(s, "mingw") {
            Ok(Toolchain::Mingw)
        } else if str_eq(s, "clang-msvc") {
            Ok(Toolchain::ClangMsvc)
        } else if str_eq(s, "clang-gcc") {
            Ok(Toolchain::ClangGcc)
        } else if str_eq(s, "clang-mingw") {
            Ok(Toolchain::ClangMingw)
        } else if str_eq(s, "zig") {
            Ok(Toolchain::Zig)
        } else if str_eq(s, "emcc") {
            Ok(Toolchain::Emcc)
        } else {
            Err(Error::UnknownToolchain(owned(s)))
        }
    }

    /// The human readable name of the toolchain.
    pub fn to_string(&self) -> (res: String)
        ensures
            res@ == toolchain_title(*self),
    {
        match self {
            Toolchain::Msvc => owned("MSVC"),
            Toolchain::Gcc => owned("GCC"),
            Toolchain::Mingw => owned("MinGW"),
            Toolchain::ClangMsvc => owned("Clang (MSVC backend)"),
            Toolchain::ClangGcc => owned("Clang (GNU backend)"),
            Toolchain::ClangMingw => owned("Clang (MinGW backend)"),
            Toolchain::Zig => owned("Zig"),
            Toolchain::Emcc => owned("Emscripten"),
        }
    }
}

/// The toolchain a name stands for, if any.
pub open spec fn toolchain_from_name(s: Seq<char>) -> Option<Toolchain> {
    if s == "msvc"@ {
        Some(Toolchain::Msvc)
    } else if s == "gcc"@ {
        Some(Toolchain::Gcc)
    } else if s == "mingw"@ {
        Some(Toolchain::Mingw)
    } else if s == "clang-msvc"@ {
        Some(Toolchain::ClangMsvc)
    } else if s == "clang-gcc"@ {
        Some(Toolchain::ClangGcc)
    } else if s == "clang-mingw"@ {
        Some(Toolchain::ClangMingw)
    } else if s == "zig"@ {
        Some(Toolchain::Zig)
    } else if s == "emcc"@ {
        Some(Toolchain::Emcc)
    } else {
        None
    }
}

/// Every toolchain is read back from the directory name it builds into.
pub proof fn law_toolchain_name_roundtrip(t: Toolchain)
    ensures
        toolchain_from_name(toolchain_name(t)) == Some(t),
{
    reveal_strlit("msvc");
    reveal_strlit("gcc");
    reveal_strlit("mingw");
    reveal_strlit("clang-msvc");
    reveal_strlit("clang-gcc");
    reveal_strlit("clang-mingw");
    reveal_strlit("zig");
    reveal_strlit("emcc");
    match t {
        Toolchain::Msvc => {
        },
        Toolchain::Gcc => {
            assert("gcc"@ != "msvc"@) by { assert("gcc"@.len() != "msvc"@.len()); }
        },
        Toolchain::Mingw => {
            assert("mingw"@ != "msvc"@) by { assert("mingw"@.len() != "msvc"@.len()); }
            assert("mingw"@ != "gcc"@) by { assert("mingw"@.len() != "gcc"@.len()); }
        },
        Toolchain::ClangMsvc => {
            assert("clang-msvc"@ != "msvc"@) by { assert("clang-msvc"@.len() != "msvc"@.len()); }
            assert("clang-msvc"@ != "gcc"@) by { assert("clang-msvc"@.len() != "gcc"@.len()); }
            assert("clang-msvc"@ != "mingw"@) by { assert("clang-msvc"@.len() != "mingw"@.len()); }
        },
        Toolchain::ClangGcc => {
            assert("clang-gcc"@ != "msvc"@) by { assert("clang-gcc"@.len() != "msvc"@.len()); }
            assert("clang-gcc"@ != "gcc"@) by { assert("clang-gcc"@.len() != "gcc"@.len()); }
            assert("clang-gcc"@ != "mingw"@) by { assert("clang-gcc"@.len() != "mingw"@.len()); }
            assert("clang-gcc"@ != "clang-msvc"@) by { assert("clang-gcc"@.len() != "clang-msvc"@.len()); }
        },
        Toolchain::ClangMingw => {
            assert("clang-mingw"@ != "msvc"@) by { assert("clang-mingw"@.len() != "msvc"@.len()); }
            assert("clang-mingw"@ != "gcc"@) by { assert("clang-mingw"@.len() != "gcc"@.len()); }
            assert("clang-mingw"@ != "mingw"@) by { assert("clang-mingw"@.len() != "mingw"@.len()); }
            assert("clang-mingw"@ != "clang-msvc"@) by { assert("clang-mingw"@.len() != "clang-msvc"@.len()); }
            assert("clang-mingw"@ != "clang-gcc"@) by { assert("clang-mingw"@.len() != "clang-gcc"@.len()); }
        },
        Toolchain::Zig => {
            assert("zig"@ != "msvc"@) by { assert("zig"@.len() != "msvc"@.len()); }
            assert("zig"@ != "gcc"@) by { assert("zig"@[0] != "gcc"@[0]); }
            assert("zig"@ != "mingw"@) by { assert("zig"@.len() != "mingw"@.len()); }
            assert("zig"@ != "clang-msvc"@) by { assert("zig"@.len() != "clang-msvc"@.len()); }
            assert("zig"@ != "clang-gcc"@) by { assert("zig"@.len() != "clang-gcc"@.len()); }
            assert("zig"@ != "clang-mingw"@) by { assert("zig"@.len() != "clang-mingw"@.len()); }
        },
        Toolchain::Emcc => {
            assert("emcc"@ != "msvc"@) by { assert("emcc"@[0] != "msvc"@[0]); }
            assert("emcc"@ != "gcc"@) by { assert("emcc"@.len() != "gcc"@.len()); }
            assert("emcc"@ != "mingw"@) by { assert("emcc"@.len() != "mingw"@.len()); }
            assert("emcc"@ != "clang-msvc"@) by { assert("emcc"@.len() != "clang-msvc"@.len()); }
            assert("emcc"@ != "clang-gcc"@) by { assert("emcc"@.len() != "clang-gcc"@.len()); }
            assert("emcc"@ != "clang-mingw"@) by { assert("emcc"@.len() != "clang-mingw"@.len()); }
            assert("emcc"@ != "zig"@) by { assert("emcc"@.len() != "zig"@.len()); }
        },
    }
}

#[derive(Debug, Clone, Copy, PartialEq, Eq)]
pub struct Compiler(pub Toolchain);

#[derive(Debug, Clone, Copy, PartialEq, Eq)]
pub struct Linker(pub Toolchain);

#[derive(Debug, Clone, Copy, PartialEq, Eq)]
pub struct Archiver(pub Toolchain);

} // verus!
