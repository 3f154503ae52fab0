//! How each toolchain family spells the compiler and linker flags.
use vstd::prelude::*;
use crate::repr::{lang_numeric, Config, Lang, ToolChain};
use crate::text::{concat, decimal, owned, u32_to_string};

verus! {

/// The flag spellings of one toolchain family.
pub struct Args(pub ToolChain);

pub open spec fn std_flag_text(msvc: bool, l: Lang) -> Seq<char> {
    if msvc {
        if l is Cpp {
            if (match l { Lang::Cpp(n) => n == 123, Lang::C(n) => n == 123 }) {
                "/std:c++latest"@
            } else {
                "/std:c++"@ + decimal(lang_numeric(l))
            }
        } else if (match l { Lang::Cpp(n) => n == 123, Lang::C(n) => n == 123 }) {
            "/std:clatest"@
        } else {
            "/std:c"@ + decimal(lang_numeric(l))
        }
    } else if l is Cpp {
        "-std=c++"@ + decimal(lang_numeric(l))
    } else {
        "-std=c"@ + decimal(lang_numeric(l))
    }
}

impl Args {
    /// Compile without linking.
    pub fn no_link(&self) -> (res: &'static str)
        ensures
            res@ == (if self.0 == ToolChain::Msvc { "/c"@ } else { "-c"@ }),
    {
        if self.0.is_msvc() { "/c" } else { "-c" }
    }

    /// Name the object file a compile writes.
    pub fn comp_output(&self, file: &str) -> (res: String)
        ensures
            res@ == (if self.0 == ToolChain::Msvc { "/Fo:"@ } else { "-o"@ }) + file@,
    {
        if self.0.is_msvc() { concat("/Fo:", file) } else { concat("-o", file) }
    }

    /// Name the file a link writes.
    pub fn link_output(&self, file: &str) -> (res: String)
        ensures
            res@ == (if self.0 == ToolChain::Msvc { "/OUT:"@ } else { "-o"@ }) + file@,
    {
        if self.0.is_msvc() { concat("/OUT:", file) } else { concat("-o", file) }
    }

    /// The exception model C++ code needs by default, where a flag is needed.
    pub fn eh_default_cpp(&self) -> (res: Option<&'static str>)
        ensures
            self.0 == ToolChain::Msvc ==> (res matches Some(f) && f@ == "/EHsc"@),
            self.0 != ToolChain::Msvc ==> res is None,
    {
        if self.0.is_msvc() { Some("/EHsc") } else { None }
    }

    /// Emit debug symbols.
    pub fn dbg_symbols(&self) -> (res: &'static str)
        ensures
            res@ == (if self.0 == ToolChain::Msvc { "/Zi"@ } else { "-g"@ }),
    {
        if self.0.is_msvc() { "/Zi" } else { "-g" }
    }

    /// Select the language standard.
    pub fn standard(&self, lang: Lang) -> (res: String)
        ensures
            res@ == std_flag_text(self.0 == ToolChain::Msvc, lang),
    {
        let n = u32_to_string(lang.numeric());
        if self.0.is_msvc() {
            if lang.is_cpp() {
                if lang.is_latest() {
                    owned("/std:c++latest")
                } else {
                    concat("/std:c++", n.as_str())
                }
            } else if lang.is_latest() {
                owned("/std:clatest")
            } else {
                concat("/std:c", n.as_str())
            }
        } else if lang.is_cpp() {
            concat("-std=c++", n.as_str())
        } else {
            concat("-std=c", n.as_str())
        }
    }

    #[allow(non_snake_case)]
    pub fn O0(&self) -> (res: &'static str)
        ensures
            res@ == (if self.0 == ToolChain::Msvc { "/Od"@ } else { "-O0"@ }),
    {
        if self.0.is_msvc() { "/Od" } else { "-O0" }
    }

    #[allow(non_snake_case)]
    pub fn O1(&self) -> (res: &'static str)
        ensures
            res@ == (if self.0 == ToolChain::Msvc { "/O1"@ } else { "-O1"@ }),
    {
        if self.0.is_msvc() { "/O1" } else { "-O1" }
    }

    #[allow(non_snake_case)]
    pub fn O2(&self) -> (res: &'static str)
        ensures
            res@ == (if self.0 == ToolChain::Msvc { "/O2"@ } else { "-O2"@ }),
    {
        if self.0.is_msvc() { "/O2" } else { "-O2" }
    }

    #[allow(non_snake_case)]
    pub fn O3(&self) -> (res: &'static str)
        ensures
            res@ == (if self.0 == ToolChain::Msvc { "/O2"@ } else { "-O3"@ }),
    {
        if self.0.is_msvc() { "/O2" } else { "-O3" }
    }

    #[allow(non_snake_case)]
    pub fn Os(&self) -> (res: &'static str)
        ensures
            res@ == (if self.0 == ToolChain::Msvc { "/Os"@ } else { "-Os"@ }),
    {
        if self.0.is_msvc() { "/Os" } else { "-Os" }
    }

    #[allow(non_snake_case)]
    pub fn Ot(&self) -> (res: &'static str)
        ensures
            res@ == (if self.0 == ToolChain::Msvc { "/Ot"@ } else { "-Ofast"@ }),
    {
        if self.0.is_msvc() { "/Ot" } else { "-Ofast" }
    }

    /// Add an include directory (the directory follows directly).
    #[allow(non_snake_case)]
    pub fn I(&self) -> (res: &'static str)
        ensures
            res@ == (if self.0 == ToolChain::Msvc { "/I"@ } else { "-I"@ }),
    {
        if self.0.is_msvc() { "/I" } else { "-I" }
    }

    /// Define a macro (the definition follows directly).
    #[allow(non_snake_case)]
    pub fn D(&self) -> (res: &'static str)
        ensures
            res@ == (if self.0 == ToolChain::Msvc { "/D"@ } else { "-D"@ }),
    {
        if self.0.is_msvc() { "/D" } else { "-D" }
    }

    /// Add a library directory (the directory follows directly).
    #[allow(non_snake_case)]
    pub fn L(&self) -> (res: &'static str)
        ensures
            res@ == (if self.0 == ToolChain::Msvc { "/LIBPATH:"@ } else { "-L"@ }),
    {
        if self.0.is_msvc() { "/LIBPATH:" } else { "-L" }
    }

    /// Link a library (the name follows directly).
    pub fn l(&self) -> (res: &'static str)
        ensures
            res@ == (if self.0 == ToolChain::Msvc { ""@ } else { "-l"@ }),
    {
        if self.0.is_msvc() { "" } else { "-l" }
    }

    /// Link the C runtime statically.
    pub fn crt_static(&self, config: Config) -> (res: &'static str)
        ensures
            res@ == (if self.0 == ToolChain::Msvc {
                if config == Config::Release { "/MT"@ } else { "/MTd"@ }
            } else {
                "-static"@
            }),
    {
        if self.0.is_msvc() {
            if config.is_release() { "/MT" } else { "/MTd" }
        } else {
            "-static"
        }
    }

    /// Link the C runtime dynamically, where that takes a flag.
    pub fn crt_dynamic(&self, config: Config) -> (res: Option<&'static str>)
        ensures
            self.0 == ToolChain::Msvc ==> (res matches Some(f) && f@ == (if config == Config::Release {
                "/MD"@
            } else {
                "/MDd"@
            })),
            self.0 != ToolChain::Msvc ==> res is None,
    {
        if self.0.is_msvc() {
            if config.is_release() { Some("/MD") } else { Some("/MDd") }
        } else {
            None
        }
    }

    /// The flags of an unoptimised build with debug symbols.
    pub fn opt_profile_none(&self) -> (res: Vec<String>)
        ensures
            self.0 == ToolChain::Msvc ==> res@.map_values(|s: String| s@) == seq![
                "/Od"@,
                "/Zi"@,
                "/Fd:bin/debug/obj/vc143.pdb"@,
                "/FS"@,
            ],
            self.0 != ToolChain::Msvc ==> res@.map_values(|s: String| s@) == seq!["-O0"@, "-g"@],
    {
        let mut v: Vec<String> = Vec::new();
        v.push(owned(self.O0()));
        v.push(owned(self.dbg_symbols()));
        if self.0.is_msvc() {
            v.push(owned("/Fd:bin/debug/obj/vc143.pdb"));
            v.push(owned("/FS"));
        }
        assert(v@.map_values(|s: String| s@) =~= if self.0 == ToolChain::Msvc {
            seq!["/Od"@, "/Zi"@, "/Fd:bin/debug/obj/vc143.pdb"@, "/FS"@]
        } else {
            seq!["-O0"@, "-g"@]
        });
        v
    }

    /// The flags of an optimised build.
    pub fn opt_profile_high(&self) -> (res: Vec<String>)
        ensures
            self.0 == ToolChain::Msvc ==> res@.map_values(|s: String| s@) == seq![
                "/O2"@,
                "/Oi"@,
                "/GL"@,
            ],
            self.0 != ToolChain::Msvc ==> res@.map_values(|s: String| s@) == seq!["-O2"@],
    {
        let mut v: Vec<String> = Vec::new();
        v.push(owned(self.O2()));
        if self.0.is_msvc() {
            v.push(owned("/Oi"));
            v.push(owned("/GL"));
        }
        assert(v@.map_values(|s: String| s@) =~= if self.0 == ToolChain::Msvc {
            seq!["/O2"@, "/Oi"@, "/GL"@]
        } else {
            seq!["-O2"@]
        });
        v
    }
}

} // verus!
