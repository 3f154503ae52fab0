//! The programs each toolchain runs, with the arguments for a given build.
use vstd::prelude::*;
use crate::config::{Language, Platform};
use crate::exec::cmdline::{none_of, push_seg, single};
use crate::exec::gnu::{gnu_archive_args, gnu_compile_args, gnu_link_args};
use crate::exec::msvc::{msvc_archive_args, msvc_compile_args, msvc_link_args};
use crate::exec::toolchain::msvc_compatible;
use crate::exec::{gnu, msvc, Archiver, BuildInfo, CommandLine, Compiler, Linker, PreCompHead, Toolchain};
use crate::text::{owned, strs};

verus! {

/// A program and the arguments it is always started with.
pub struct Invocation {
    pub program: Seq<char>,
    pub lead: Seq<Seq<char>>,
}

/// The compiler driver of a toolchain for a language.
pub open spec fn compiler_exe(tc: Toolchain, lang: Language) -> Invocation {
    let cpp = lang is Cpp;
    match tc {
        Toolchain::Msvc => Invocation { program: "cl"@, lead: Seq::empty() },
        Toolchain::Gcc | Toolchain::Mingw => Invocation {
            program: if cpp { "g++"@ } else { "gcc"@ },
            lead: Seq::empty(),
        },
        Toolchain::ClangMsvc => Invocation { program: "clang-cl"@, lead: Seq::empty() },
        Toolchain::ClangGcc => Invocation {
            program: if cpp { "clang++"@ } else { "clang"@ },
            lead: Seq::empty(),
        },
        Toolchain::ClangMingw => Invocation {
            program: if cpp { "clang++"@ } else { "clang"@ },
            lead: seq!["--target=x86_64-w64-mingw32"@],
        },
        Toolchain::Zig => Invocation {
            program: "zig"@,
            lead: seq![if cpp { "c++"@ } else { "cc"@ }],
        },
        Toolchain::Emcc => Invocation {
            program: if cpp { "em++.bat"@ } else { "emcc.bat"@ },
            lead: Seq::empty(),
        },
    }
}

/// The linker of a toolchain; GNU-style toolchains link through the driver.
pub open spec fn linker_exe(tc: Toolchain, lang: Language) -> Invocation {
    match tc {
        Toolchain::Msvc => Invocation { program: "LINK"@, lead: Seq::empty() },
        Toolchain::ClangMsvc => Invocation { program: "lld-link"@, lead: Seq::empty() },
        _ => compiler_exe(tc, lang),
    }
}

/// The librarian of a toolchain.
pub open spec fn archiver_exe(tc: Toolchain) -> Invocation {
    match tc {
        Toolchain::Msvc => Invocation { program: "LIB"@, lead: Seq::empty() },
        Toolchain::Gcc | Toolchain::Mingw => Invocation { program: "ar"@, lead: Seq::empty() },
        Toolchain::ClangMsvc => Invocation { program: "llvm-lib"@, lead: Seq::empty() },
        Toolchain::Zig => Invocation { program: "zig"@, lead: seq!["ar"@] },
        _ => Invocation { program: "llvm-ar"@, lead: Seq::empty() },
    }
}

/// A command line is the invocation followed by `args`.
pub open spec fn runs(c: CommandLine, inv: Invocation, args: Seq<Seq<char>>) -> bool {
    c.program@ == inv.program && strs(c.args@) == inv.lead + args
}

fn invocation(program: &str, lead: Option<&str>) -> (res: CommandLine)
    ensures
        res.program@ == program@,
        strs(res.args@) == (match lead {
            Some(l) => seq![l@],
            None => Seq::<Seq<char>>::empty(),
        }),
{
    CommandLine {
        program: owned(program),
        args: match lead {
            Some(l) => single(l),
            None => none_of(),
        },
    }
}

fn compiler_invocation(tc: Toolchain, lang: Language) -> (res: CommandLine)
    ensures
        res.program@ == compiler_exe(tc, lang).program,
        strs(res.args@) == compiler_exe(tc, lang).lead,
{
    let cpp = lang.is_cpp();
    match tc {
        Toolchain::Msvc => invocation("cl", None),
        Toolchain::Gcc | Toolchain::Mingw => invocation(if cpp { "g++" } else { "gcc" }, None),
        Toolchain::ClangMsvc => invocation("clang-cl", None),
        Toolchain::ClangGcc => invocation(if cpp { "clang++" } else { "clang" }, None),
        Toolchain::ClangMingw => invocation(
            if cpp { "clang++" } else { "clang" },
            Some("--target=x86_64-w64-mingw32"),
        ),
        Toolchain::Zig => invocation("zig", Some(if cpp { "c++" } else { "cc" })),
        Toolchain::Emcc => invocation(if cpp { "em++.bat" } else { "emcc.bat" }, None),
    }
}

fn linker_invocation(tc: Toolchain, lang: Language) -> (res: CommandLine)
    ensures
        res.program@ == linker_exe(tc, lang).program,
        strs(res.args@) == linker_exe(tc, lang).lead,
{
    match tc {
        Toolchain::Msvc => invocation("LINK", None),
        Toolchain::ClangMsvc => invocation("lld-link", None),
        _ => compiler_invocation(tc, lang),
    }
}

fn archiver_invocation(tc: Toolchain) -> (res: CommandLine)
    ensures
        res.program@ == archiver_exe(tc).program,
        strs(res.args@) == archiver_exe(tc).lead,
{
    match tc {
        Toolchain::Msvc => invocation("LIB", None),
        Toolchain::Gcc | Toolchain::Mingw => invocation("ar", None),
        Toolchain::ClangMsvc => invocation("llvm-lib", None),
        Toolchain::Zig => invocation("zig", Some("ar")),
        _ => invocation("llvm-ar", None),
    }
}

/// The standard the linker driver is picked for: C++ when C++ code is linked in.
pub open spec fn link_language(cpprt: bool, lang: Language) -> Language {
    if cpprt { Language::Cpp(98) } else { lang }
}

impl Compiler {
    /// The command that compiles `src` into `obj` on `host`: MSVC-style arguments for
    /// MSVC-style compilers, GNU-style ones for the rest.
    pub fn command(self, src: &str, obj: &str, info: &BuildInfo, pch: &PreCompHead, verbose: bool, host: Platform) -> (res: CommandLine)
        ensures
            runs(
                res,
                compiler_exe(self.0, info.lang),
                if msvc_compatible(self.0) {
                    msvc_compile_args(info@, src@, obj@, pch@, host)
                } else {
                    gnu_compile_args(info@, src@, obj@, pch@, verbose)
                },
            ),
    {
        let mut cmd = compiler_invocation(self.0, info.lang);
        if self.0.is_msvc_compatible() {
            push_seg(&mut cmd.args, msvc::compiler_args(src, obj, info, pch, host));
        } else {
            push_seg(&mut cmd.args, gnu::compiler_args(src, obj, info, pch, verbose));
        }
        cmd
    }
}

impl Linker {
    /// The command that links `objs` into the output file on `host`.
    pub fn command(self, objs: Vec<String>, info: &BuildInfo, verbose: bool, host: Platform) -> (res: CommandLine)
        ensures
            runs(
                res,
                linker_exe(self.0, link_language(info.cpprt, info.lang)),
                if msvc_compatible(self.0) {
                    msvc_link_args(info@, strs(objs@))
                } else {
                    gnu_link_args(info@, strs(objs@), host, verbose)
                },
            ),
    {
        let lang = if info.cpprt { Language::Cpp(98) } else { info.lang };
        let mut cmd = linker_invocation(self.0, lang);
        if self.0.is_msvc_compatible() {
            push_seg(&mut cmd.args, msvc::linker_args(objs, info));
        } else {
            push_seg(&mut cmd.args, gnu::linker_args(objs, info, host, verbose));
        }
        cmd
    }
}

impl Archiver {
    /// The command that archives `objs` into the output file.
    pub fn command(self, objs: Vec<String>, info: &BuildInfo, verbose: bool) -> (res: CommandLine)
        ensures
            runs(
                res,
                archiver_exe(self.0),
                if msvc_compatible(self.0) {
                    msvc_archive_args(info@, strs(objs@))
                } else {
                    gnu_archive_args(info@, strs(objs@), verbose)
                },
            ),
    {
        let mut cmd = archiver_invocation(self.0);
        if self.0.is_msvc_compatible() {
            push_seg(&mut cmd.args, msvc::archiver_args(objs, info));
        } else {
            push_seg(&mut cmd.args, gnu::archiver_args(objs, info, verbose));
        }
        cmd
    }
}

} // verus!
