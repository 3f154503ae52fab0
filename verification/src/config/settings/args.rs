//! How each toolchain family spells the flags a build profile turns on, with the
//! optimisation levels as flag lists.
use vstd::prelude::*;
use crate::config::elems::{Profile, ProfileView};
use crate::repr::args::std_flag_text;
use crate::repr::{Lang, ToolChain};
use crate::text::{concat, owned, u32_to_string};

verus! {

/// The flag spellings of one toolchain family.
pub struct Args(pub ToolChain);

pub open spec fn strs(v: Seq<&'static str>) -> Seq<Seq<char>> {
    v.map_values(|s: &'static str| s@)
}

impl Args {
    /// Compile without linking.
    pub fn comp_only(&self) -> (res: &'static str)
        ensures
            res@ == (if self.0 == ToolChain::Msvc { "/c"@ } else { "-c"@ }),
    {
        if self.0.is_msvc() { "/c" } else { "-c" }
    }

    /// Name the object file a compile writes.
    pub fn comp_output(&self, file: &str) -> (res: String)
        ensures
            res@ == (if self.0 == ToolChain::Msvc { "/Fo:"@ } else { "-o"@ }) + file@,
    {
        if self.0.is_msvc() { concat("/Fo:", file) } else { concat("-o", file) }
    }

    /// Name the file a link writes.
    pub fn link_output(&self, file: &str) -> (res: String)
        ensures
            res@ == (if self.0 == ToolChain::Msvc { "/OUT:"@ } else { "-o"@ }) + file@,
    {
        if self.0.is_msvc() { concat("/OUT:", file) } else { concat("-o", file) }
    }

    /// The exception model C++ code needs by default, where a flag is needed.
    pub fn eh_default_cpp(&self) -> (res: Option<&'static str>)
        ensures
            self.0 == ToolChain::Msvc ==> (res matches Some(f) && f@ == "/EHsc"@),
            self.0 != ToolChain::Msvc ==> res is None,
    {
        if self.0.is_msvc() { Some("/EHsc") } else { None }
    }

    /// Emit debug symbols (for MSVC, with the program database in `bin\debug\obj\`).
    pub fn debug_symbols(&self) -> (res: Vec<String>)
        ensures
            self.0 == ToolChain::Msvc ==> res@.map_values(|s: String| s@) == seq![
                "/Zi"@,
                "/Fd:bin\\debug\\obj\\"@,
                "/FS"@,
            ],
            self.0 != ToolChain::Msvc ==> res@.map_values(|s: String| s@) == seq!["-g"@],
    {
        let mut v: Vec<String> = Vec::new();
        if self.0.is_msvc() {
            v.push(owned("/Zi"));
            v.push(owned("/Fd:bin\\debug\\obj\\"));
            v.push(owned("/FS"));
            assert(v@.map_values(|s: String| s@) =~= seq!["/Zi"@, "/Fd:bin\\debug\\obj\\"@, "/FS"@]);
        } else {
            v.push(owned("-g"));
            assert(v@.map_values(|s: String| s@) =~= seq!["-g"@]);
        }
        v
    }

    /// Select the language standard.
    pub fn standard(&self, lang: Lang) -> (res: String)
        ensures
            res@ == std_flag_text(self.0 == ToolChain::Msvc, lang),
    {
        let n = u32_to_string(lang.numeric());
        if self.0.is_msvc() {
            if lang.is_cpp() {
                if lang.is_latest() {
                    owned("/std:c++latest")
                } else {
                    concat("/std:c++", n.as_str())
                }
            } else if lang.is_latest() {
                owned("/std:clatest")
            } else {
                concat("/std:c", n.as_str())
            }
        } else if lang.is_cpp() {
            concat("-std=c++", n.as_str())
        } else {
            concat("-std=c", n.as_str())
        }
    }

    #[allow(non_snake_case)]
    pub fn O0(&self) -> (res: Vec<&'static str>)
        ensures
            strs(res@) == (if self.0 == ToolChain::Msvc { seq!["/Od"@] } else { seq!["-O0"@] }),
    {
        let v = if self.0.is_msvc() { vec!["/Od"] } else { vec!["-O0"] };
        assert(strs(v@) =~= (if self.0 == ToolChain::Msvc { seq!["/Od"@] } else { seq!["-O0"@] }));
        v
    }

    #[allow(non_snake_case)]
    pub fn O1(&self) -> (res: Vec<&'static str>)
        ensures
            strs(res@) == (if self.0 == ToolChain::Msvc { seq!["/O1"@] } else { seq!["-O1"@] }),
    {
        let v = if self.0.is_msvc() { vec!["/O1"] } else { vec!["-O1"] };
        assert(strs(v@) =~= (if self.0 == ToolChain::Msvc { seq!["/O1"@] } else { seq!["-O1"@] }));
        v
    }

    #[allow(non_snake_case)]
    pub fn O2(&self) -> (res: Vec<&'static str>)
        ensures
            strs(res@) == (if self.0 == ToolChain::Msvc { seq!["/O2"@] } else { seq!["-O2"@] }),
    {
        let v = if self.0.is_msvc() { vec!["/O2"] } else { vec!["-O2"] };
        assert(strs(v@) =~= (if self.0 == ToolChain::Msvc { seq!["/O2"@] } else { seq!["-O2"@] }));
        v
    }

    #[allow(non_snake_case)]
    pub fn O3(&self) -> (res: Vec<&'static str>)
        ensures
            strs(res@) == (if self.0 == ToolChain::Msvc {
                seq!["/O2"@, "/Oi"@]
            } else {
                seq!["-O3"@]
            }),
    {
        let v = if self.0.is_msvc() { vec!["/O2", "/Oi"] } else { vec!["-O3"] };
        assert(strs(v@) =~= (if self.0 == ToolChain::Msvc {
            seq!["/O2"@, "/Oi"@]
        } else {
            seq!["-O3"@]
        }));
        v
    }

    #[allow(non_snake_case)]
    pub fn Os(&self) -> (res: Vec<&'static str>)
        ensures
            strs(res@) == (if self.0 == ToolChain::Msvc { seq!["/Os"@] } else { seq!["-Os"@] }),
    {
        let v = if self.0.is_msvc() { vec!["/Os"] } else { vec!["-Os"] };
        assert(strs(v@) =~= (if self.0 == ToolChain::Msvc { seq!["/Os"@] } else { seq!["-Os"@] }));
        v
    }

    #[allow(non_snake_case)]
    pub fn Ot(&self) -> (res: Vec<&'static str>)
        ensures
            strs(res@) == (if self.0 == ToolChain::Msvc {
                seq!["/Ot"@]
            } else {
                seq!["-Ofast"@]
            }),
    {
        let v = if self.0.is_msvc() { vec!["/Ot"] } else { vec!["-Ofast"] };
        assert(strs(v@) =~= (if self.0 == ToolChain::Msvc {
            seq!["/Ot"@]
        } else {
            seq!["-Ofast"@]
        }));
        v
    }

    /// Optimise across translation units at link time.
    #[allow(non_snake_case)]
    pub fn Olinktime(&self) -> (res: Vec<&'static str>)
        ensures
            strs(res@) == (if self.0 == ToolChain::Msvc {
                seq!["/GL"@]
            } else {
                seq!["-flto"@]
            }),
    {
        let v = if self.0.is_msvc() { vec!["/GL"] } else { vec!["-flto"] };
        assert(strs(v@) =~= (if self.0 == ToolChain::Msvc {
            seq!["/GL"@]
        } else {
            seq!["-flto"@]
        }));
        v
    }

    /// Add an include directory (the directory follows directly).
    #[allow(non_snake_case)]
    pub fn I(&self) -> (res: &'static str)
        ensures
            res@ == (if self.0 == ToolChain::Msvc { "/I"@ } else { "-I"@ }),
    {
        if self.0.is_msvc() { "/I" } else { "-I" }
    }

    /// Define a macro (the definition follows directly).
    #[allow(non_snake_case)]
    pub fn D(&self) -> (res: &'static str)
        ensures
            res@ == (if self.0 == ToolChain::Msvc { "/D"@ } else { "-D"@ }),
    {
        if self.0.is_msvc() { "/D" } else { "-D" }
    }

    /// Add a library directory (the directory follows directly).
    #[allow(non_snake_case)]
    pub fn L(&self) -> (res: &'static str)
        ensures
            res@ == (if self.0 == ToolChain::Msvc { "/LIBPATH:"@ } else { "-L"@ }),
    {
        if self.0.is_msvc() { "/LIBPATH:" } else { "-L" }
    }

    /// Link a library (the name follows directly).
    pub fn l(&self) -> (res: &'static str)
        ensures
            res@ == (if self.0 == ToolChain::Msvc { ""@ } else { "-l"@ }),
    {
        if self.0.is_msvc() { "" } else { "-l" }
    }

    /// Link the C runtime statically.
    pub fn crt_static(&self, profile: &Profile) -> (res: &'static str)
        ensures
            res@ == (if self.0 == ToolChain::Msvc {
                if profile@ == ProfileView::Release { "/MT"@ } else { "/MTd"@ }
            } else {
                "-static"@
            }),
    {
        if self.0.is_msvc() {
            if profile.is_release() { "/MT" } else { "/MTd" }
        } else {
            "-static"
        }
    }

    /// Link the C runtime dynamically, where that takes a flag.
    pub fn crt_dynamic(&self, profile: &Profile) -> (res: Option<&'static str>)
        ensures
            self.0 == ToolChain::Msvc ==> (res matches Some(f) && f@ == (if profile@
                == ProfileView::Release {
                "/MD"@
            } else {
                "/MDd"@
            })),
            self.0 != ToolChain::Msvc ==> res is None,
    {
        if self.0.is_msvc() {
            if profile.is_release() { Some("/MD") } else { Some("/MDd") }
        } else {
            None
        }
    }
}

} // verus!
