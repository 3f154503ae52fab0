//! The compact project description of the command-line driver: three toolchain
//! families, two configurations and the language standards with their ordering.
use vstd::prelude::*;
use crate::config::elems::{
    lang_number, read_standard, standard_parts, std_number, valid_cpp, Platform,
};
use crate::error::Error;
use crate::config::elems::{law_language_roundtrip, lemma_lower_digits, Language};
use crate::text::{is_digit, lemma_decimal_digits, lemma_parse_decimal, concat, decimal, lower_seq, owned, to_ascii_lowercase, u32_to_string, parse_u32, strip_prefix, parse_u32_spec, has_prefix};

pub mod args;
pub mod buildfile;
pub mod libfile;
pub mod defs;
pub mod order;

verus! {

#[derive(Debug, Clone, Copy, PartialEq, Eq, Structural)]
pub enum ProjKind {
    App,
    Lib,
}

impl ProjKind {
    /// The file extension of what a project of this kind builds.
    pub fn ext(&self) -> (res: String)
        ensures
            res@ == (if *self == ProjKind::App { "exe"@ } else { "lib"@ }),
    {
        match self {
            ProjKind::App => owned("exe"),
            ProjKind::Lib => owned("lib"),
        }
    }
}

/// The number a `c++NN` text stands for, two-digit years from 2000 on counting from 100.
pub open spec fn cppstd_number(cpp: Seq<char>) -> u32 {
    let n = parse_u32_spec(lower_seq(cpp).skip("c++"@.len() as int)).unwrap();
    if n < 50 { (100 + n) as u32 } else { n }
}

/// Reads the number of a C++ standard written `c++NN`.
pub fn u32_from_cppstd(cpp: &str) -> (res: u32)
    requires
        has_prefix(lower_seq(cpp@), "c++"@),
        parse_u32_spec(lower_seq(cpp@).skip("c++"@.len() as int)) is Some,
    ensures
        res == cppstd_number(cpp@),
{
    let lower = to_ascii_lowercase(cpp);
    let rest = strip_prefix(lower.as_str(), "c++");
    match rest {
        Some(r) => match parse_u32(r.as_str()) {
            Some(n) => if n < 50 { 100 + n } else { n },
            None => 0,
        },
        None => 0,
    }
}

#[derive(Debug, Clone, Copy, PartialEq, Eq, Structural)]
pub enum ToolChain {
    Msvc,
    Gnu,
    Clang,
}

pub open spec fn toolchain_host_default(p: Platform) -> ToolChain {
    match p {
        Platform::Windows => ToolChain::Msvc,
        Platform::Linux => ToolChain::Gnu,
        Platform::Macos => ToolChain::Clang,
    }
}

impl ToolChain {
    /// The toolchain family a platform uses by default.
    pub fn host_default(platform: Platform) -> (res: ToolChain)
        ensures
            res == toolchain_host_default(platform),
    {
        match platform {
            Platform::Windows => ToolChain::Msvc,
            Platform::Linux => ToolChain::Gnu,
            Platform::Macos => ToolChain::Clang,
        }
    }

    pub fn is_msvc(&self) -> (res: bool)
        ensures
            res == (*self == ToolChain::Msvc),
    {
        matches!(self, ToolChain::Msvc)
    }

    pub fn is_gnu(&self) -> (res: bool)
        ensures
            res == (*self == ToolChain::Gnu),
    {
        matches!(self, ToolChain::Gnu)
    }

    pub fn is_clang(&self) -> (res: bool)
        ensures
            res == (*self == ToolChain::Clang),
    {
        matches!(self, ToolChain::Clang)
    }

    pub fn is_posix(&self) -> (res: bool)
        ensures
            res == (*self == ToolChain::Gnu || *self == ToolChain::Clang),
    {
        matches!(self, ToolChain::Gnu | ToolChain::Clang)
    }

    pub fn is_llvm(&self) -> (res: bool)
        ensures
            res == (*self == ToolChain::Clang),
    {
        matches!(self, ToolChain::Clang)
    }

    /// What library file names start with.
    pub fn lib_prefix(&self) -> (res: &'static str)
        ensures
            res@ == (if *self == ToolChain::Msvc { ""@ } else { "lib"@ }),
    {
        match self {
            ToolChain::Msvc => "",
            _ => "lib",
        }
    }

    /// The extension of what a project of `kind` builds.
    pub fn ext(&self, kind: ProjKind) -> (res: &'static str)
        ensures
            res@ == (if kind == ProjKind::App {
                if *self == ToolChain::Msvc { ".exe"@ } else { ""@ }
            } else {
                if *self == ToolChain::Msvc { ".lib"@ } else { ".a"@ }
            }),
    {
        match kind {
            ProjKind::App => self.app_ext(),
            ProjKind::Lib => self.lib_ext(),
        }
    }

    pub fn app_ext(&self) -> (res: &'static str)
        ensures
            res@ == (if *self == ToolChain::Msvc { ".exe"@ } else { ""@ }),
    {
        match self {
            ToolChain::Msvc => ".exe",
            _ => "",
        }
    }

    pub fn lib_ext(&self) -> (res: &'static str)
        ensures
            res@ == (if *self == ToolChain::Msvc { ".lib"@ } else { ".a"@ }),
    {
        match self {
            ToolChain::Msvc => ".lib",
            _ => ".a",
        }
    }

    /// The compiler program, for C++ when `cpp` holds.
    pub fn compiler(&self, cpp: bool) -> (res: &'static str)
        ensures
            res@ == match *self {
                ToolChain::Msvc => "cl"@,
                ToolChain::Gnu => if cpp { "g++"@ } else { "gcc"@ },
                ToolChain::Clang => if cpp { "clang++"@ } else { "clang"@ },
            },
    {
        match self {
            ToolChain::Msvc => "cl",
            ToolChain::Gnu => if cpp { "g++" } else { "gcc" },
            ToolChain::Clang => if cpp { "clang++" } else { "clang" },
        }
    }

    /// The linker program: the compiler driver for the GNU-style toolchains.
    pub fn linker(&self, cpp: bool) -> (res: &'static str)
        ensures
            res@ == match *self {
                ToolChain::Msvc => "LINK"@,
                ToolChain::Gnu => if cpp { "g++"@ } else { "gcc"@ },
                ToolChain::Clang => if cpp { "clang++"@ } else { "clang"@ },
            },
    {
        match self {
            ToolChain::Msvc => "LINK",
            ToolChain::Gnu | ToolChain::Clang => self.compiler(cpp),
        }
    }

    pub fn archiver(&self) -> (res: &'static str)
        ensures
            res@ == match *self {
                ToolChain::Msvc => "LIB"@,
                ToolChain::Gnu => "ar"@,
                ToolChain::Clang => "llvm-ar"@,
            },
    {
        match self {
            ToolChain::Msvc => "LIB",
            ToolChain::Gnu => "ar",
            ToolChain::Clang => "llvm-ar",
        }
    }

    /// The command line switch that selects this toolchain.
    pub fn as_arg(&self) -> (res: &'static str)
        ensures
            res@ == match *self {
                ToolChain::Msvc => "-t=msvc"@,
                ToolChain::Gnu => "-t=gnu"@,
                ToolChain::Clang => "-t=clang"@,
            },
    {
        match self {
            ToolChain::Msvc => "-t=msvc",
            ToolChain::Gnu => "-t=gnu",
            ToolChain::Clang => "-t=clang",
        }
    }

    /// The flag spellings of this toolchain.
    pub fn args(&self) -> (res: args::Args)
        ensures
            res.0 == *self,
    {
        args::Args(*self)
    }

    /// The human readable name.
    pub fn to_string(&self) -> (res: String)
        ensures
            res@ == match *self {
                ToolChain::Msvc => "MSVC"@,
                ToolChain::Gnu => "GCC"@,
                ToolChain::Clang => "Clang/LLVM"@,
            },
    {
        match self {
            ToolChain::Msvc => owned("MSVC"),
            ToolChain::Gnu => owned("GCC"),
            ToolChain::Clang => owned("Clang/LLVM"),
        }
    }
}

#[derive(Debug, Clone, Copy, PartialEq, Eq, Structural)]
pub enum Config {
    Debug,
    Release,
}

impl Config {
    pub fn is_debug(&self) -> (res: bool)
        ensures
            res == (*self == Config::Debug),
    {
        matches!(self, Config::Debug)
    }

    pub fn is_release(&self) -> (res: bool)
        ensures
            res == (*self == Config::Release),
    {
        matches!(self, Config::Release)
    }

    /// The macro this configuration defines.
    pub fn as_define(&self) -> (res: &'static str)
        ensures
            res@ == (if *self == Config::Debug { "DEBUG"@ } else { "RELEASE"@ }),
    {
        match self {
            Config::Debug => "DEBUG",
            Config::Release => "RELEASE",
        }
    }

    /// The command line switch that selects this configuration.
    pub fn as_arg(&self) -> (res: &'static str)
        ensures
            res@ == (if *self == Config::Debug { "--debug"@ } else { "--release"@ }),
    {
        match self {
            Config::Debug => "--debug",
            Config::Release => "--release",
        }
    }

    pub fn to_string(&self) -> (res: String)
        ensures
            res@ == (if *self == Config::Debug { "debug"@ } else { "release"@ }),
    {
        match self {
            Config::Debug => owned("debug"),
            Config::Release => owned("release"),
        }
    }
}

/// A language standard; those from the years 2000 on carry 100 plus their year digits.
#[derive(Debug, Clone, Copy, PartialEq, Eq, Structural)]
pub enum Lang {
    Cpp(u32),
    C(u32),
}

/// The C standards this description accepts: the ones of `Language` and C20.
pub open spec fn valid_c_lang(n: u32) -> bool {
    n == 89 || n == 99 || n == 11 || n == 17 || n == 20 || n == 23
}

/// The standard a text names.
pub open spec fn lang_spec(s: Seq<char>) -> Option<Lang> {
    match standard_parts(s) {
        Some((true, n)) => if valid_cpp(n) { Some(Lang::Cpp(std_number(n))) } else { None },
        Some((false, n)) => if valid_c_lang(n) { Some(Lang::C(std_number(n))) } else { None },
        None => None,
    }
}

/// The same standard as the manifests' `Language` writes it; both number it alike.
pub open spec fn language_of(l: Lang) -> Language {
    match l {
        Lang::Cpp(n) => Language::Cpp(n),
        Lang::C(n) => Language::C(n),
    }
}

pub open spec fn lang_numeric(l: Lang) -> nat {
    match l {
        Lang::Cpp(n) => lang_number(n),
        Lang::C(n) => lang_number(n),
    }
}

impl Lang {
    pub fn is_cpp(&self) -> (res: bool)
        ensures
            res == (*self is Cpp),
    {
        matches!(self, Lang::Cpp(_))
    }

    /// Whether this is the newest standard (the 2023 one).
    pub fn is_latest(&self) -> (res: bool)
        ensures
            res == match *self {
                Lang::Cpp(n) => n == 123,
                Lang::C(n) => n == 123,
            },
    {
        match *self {
            Lang::Cpp(n) => n == 123,
            Lang::C(n) => n == 123,
        }
    }

    /// The extension of this language's sources, with its dot.
    pub fn src_ext(&self) -> (res: &'static str)
        ensures
            res@ == (if *self is Cpp { ".cpp"@ } else { ".c"@ }),
    {
        match self {
            Lang::Cpp(..) => ".cpp",
            Lang::C(..) => ".c",
        }
    }

    /// This standard as the manifests' `Language`.
    pub fn as_language(&self) -> (res: Language)
        ensures
            res == language_of(*self),
    {
        match *self {
            Lang::Cpp(n) => Language::Cpp(n),
            Lang::C(n) => Language::C(n),
        }
    }

    /// The number the standard is written with.
    pub fn numeric(&self) -> (res: u32)
        ensures
            res == lang_numeric(*self),
    {
        match *self {
            Lang::Cpp(n) | Lang::C(n) => if n >= 100 { n - 100 } else { n },
        }
    }

    /// How the standard is written, e.g. `c++20`.
    pub fn to_string(&self) -> (res: String)
        ensures
            res@ == (if *self is Cpp { "c++"@ } else { "c"@ }) + decimal(lang_numeric(*self)),
    {
        let n = u32_to_string(self.numeric());
        if self.is_cpp() {
            concat("c++", n.as_str())
        } else {
            concat("c", n.as_str())
        }
    }

    /// Reads a standard such as `C++20` or `c11`; anything else is refused with
    /// `InvalidCppStd` carrying the lower-cased text.
    pub fn try_from(value: &str) -> (res: Result<Lang, Error>)
        ensures
            match lang_spec(value@) {
                Some(l) => res == Ok::<Lang, Error>(l),
                None => res matches Err(Error::InvalidCppStd(m)) && m@ == lower_seq(value@),
            },
    {
        let (cpp, parts) = read_standard(value);
        match parts {
            Some((true, num)) => {
                if !(num == 98 || num == 3 || num == 11 || num == 14 || num == 17 || num == 20
                    || num == 23) {
                    Err(Error::InvalidCppStd(cpp))
                } else if num < 80 {
                    Ok(Lang::Cpp(100 + num))
                } else {
                    Ok(Lang::Cpp(num))
                }
            },
            Some((false, num)) => {
                if !(num == 89 || num == 99 || num == 11 || num == 17 || num == 20 || num == 23) {
                    Err(Error::InvalidCppStd(cpp))
                } else if num < 80 {
                    Ok(Lang::C(100 + num))
                } else {
                    Ok(Lang::C(num))
                }
            },
            None => Err(Error::InvalidCppStd(cpp)),
        }
    }
}


/// How a standard is written, as `Lang::to_string` writes it.
pub open spec fn lang_text(l: Lang) -> Seq<char> {
    (if l is Cpp { "c++"@ } else { "c"@ }) + decimal(lang_numeric(l))
}

/// The standards this description accepts, as numbered.
pub open spec fn valid_lang(l: Lang) -> bool {
    match l {
        Lang::Cpp(n) => n == 98 || n == 103 || n == 111 || n == 114 || n == 117 || n == 120
            || n == 123,
        Lang::C(n) => n == 89 || n == 99 || n == 111 || n == 117 || n == 120 || n == 123,
    }
}

/// Every standard this description accepts is read back from how it is written.
pub proof fn law_lang_roundtrip(l: Lang)
    requires
        valid_lang(l),
    ensures
        lang_spec(lang_text(l)) == Some(l),
{
    match l {
        Lang::Cpp(n) => {
            law_language_roundtrip(Language::Cpp(n));
        },
        Lang::C(n) => {
            reveal_strlit("c++");
            reveal_strlit("c");
            let k = lang_number(n);
            lemma_lower_digits("c"@, k);
            lemma_decimal_digits(k);
            let t = "c"@ + decimal(k);
            assert(t[1] == decimal(k)[0]);
            assert(is_digit(decimal(k)[0]));
            assert(!has_prefix(t, "c++"@)) by {
                if has_prefix(t, "c++"@) {
                    assert(t.take(3)[1] == '+');
                }
            }
            assert(t.take(1) =~= "c"@);
            assert(t.skip(1) =~= decimal(k));
            lemma_parse_decimal(k as u32);
        },
    }
}

/// A standard read from text carries the number the text writes, and is C++ exactly
/// when the text names C++: `c++03` gives a standard whose number is 3, `c20` one
/// whose number is 20.
pub proof fn law_lang_number_read(s: Seq<char>)
    requires
        lang_spec(s) is Some,
    ensures
        standard_parts(s) is Some,
        lang_numeric(lang_spec(s).unwrap()) == standard_parts(s).unwrap().1,
        (lang_spec(s).unwrap() is Cpp) == standard_parts(s).unwrap().0,
{
}

} // verus!
