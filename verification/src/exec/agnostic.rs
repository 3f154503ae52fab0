//! A toolchain described by data: the programs it runs, and how it spells each setting
//! on the command line.
use vstd::prelude::*;
use crate::exec::CommandLine;
use crate::repr::Lang;
use crate::text::{owned, strs};

verus! {

/// The programs of a toolchain, each with the arguments it always takes, and the file
/// name patterns of what it writes.
#[derive(Debug, Default)]
pub struct TcProperties {
    pub name: String,
    pub compiler_c: Vec<String>,
    pub compiler_cpp: Vec<String>,
    pub linker_c: Vec<String>,
    pub linker_cpp: Vec<String>,
    pub archiver_c: Vec<String>,
    pub archiver_cpp: Vec<String>,
    pub exe_fmt: String,
    pub obj_fmt: String,
    pub archive_fmt: String,
}

/// How the compiler spells each setting.
#[derive(Debug, Default)]
pub struct CompilerArgs {
    pub input: Vec<String>,
    pub output: Vec<String>,
    pub standard: Vec<String>,
    pub comp_only: Vec<String>,
    pub eh_default: Vec<String>,
    pub debug_info: Vec<String>,
    pub include_dir: Vec<String>,
    pub define: Vec<String>,
    pub opt_0: Vec<String>,
    pub opt_1: Vec<String>,
    pub opt_2: Vec<String>,
    pub opt_3: Vec<String>,
    pub opt_size: Vec<String>,
    pub opt_speed: Vec<String>,
    pub opt_linktime: Vec<String>,
    pub pch_create: Vec<String>,
    pub pch_include: Vec<String>,
    pub runtime_static_debug: Vec<String>,
    pub runtime_static_release: Vec<String>,
    pub runtime_dynamic_debug: Vec<String>,
    pub runtime_dynamic_release: Vec<String>,
    pub iso_compliant: Vec<String>,
    pub warn_none: Vec<String>,
    pub warn_basic: Vec<String>,
    pub warn_high: Vec<String>,
    pub warn_as_error: Vec<String>,
}

/// How the linker spells each setting.
#[derive(Debug, Default)]
pub struct LinkerArgs {
    pub object: Vec<String>,
    pub libdir: Vec<String>,
    pub library: Vec<String>,
    pub output: Vec<String>,
    pub opt_linktime: Vec<String>,
    pub default_libs: Vec<String>,
}

/// How the archiver spells each setting.
#[derive(Debug, Default)]
pub struct ArchiverArgs {
    pub object: Vec<String>,
    pub output: Vec<String>,
}

/// A whole toolchain described by data.
#[derive(Debug, Default)]
pub struct Toolchain {
    pub toolchain: TcProperties,
    pub compiler: CompilerArgs,
    pub linker: LinkerArgs,
    pub archiver: ArchiverArgs,
}

/// The compiler invocation of a language: the C++ one for C++, else the C one.
pub open spec fn compiler_words(t: &Toolchain, lang: Lang) -> Seq<Seq<char>> {
    if lang is Cpp {
        strs(t.toolchain.compiler_cpp@)
    } else {
        strs(t.toolchain.compiler_c@)
    }
}

impl Toolchain {
    /// The command that starts the compiler for `lang`: the first word of its
    /// invocation is the program, the rest its first arguments.
    pub fn compile(&self, lang: Lang) -> (res: CommandLine)
        requires
            compiler_words(self, lang).len() > 0,
        ensures
            res.program@ == compiler_words(self, lang)[0],
            strs(res.args@) == compiler_words(self, lang).skip(1),
    {
        let words = if lang.is_cpp() {
            &self.toolchain.compiler_cpp
        } else {
            &self.toolchain.compiler_c
        };
        let ghost all = strs(words@);
        let mut args: Vec<String> = Vec::new();
        let mut i: usize = 1;
        assert(strs(args@) =~= all.skip(1).take(0));
        while i < words.len()
            invariant
                all == strs(words@),
                all == compiler_words(self, lang),
                1 <= i <= words@.len(),
                strs(args@) == all.skip(1).take(i - 1),
            decreases words@.len() - i,
        {
            let ghost before = args@;
            args.push(owned(words[i].as_str()));
            assert(strs(args@) =~= strs(before).push(all[i as int]));
            assert(all.skip(1).take(i as int) =~= all.skip(1).take(i - 1).push(all[i as int]));
            i = i + 1;
        }
        assert(all.skip(1).take(words@.len() - 1) =~= all.skip(1));
        CommandLine { program: owned(words[0].as_str()), args }
    }
}

} // verus!
