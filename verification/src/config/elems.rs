//! The small value types a manifest is made of: versions, platforms, artefact kinds,
//! profiles and language standards.
use vstd::prelude::*;
use crate::error::Error;
use crate::text::{concat, is_upper, lower, concat3, decimal, has_prefix, is_digit, lemma_decimal_digits, lemma_parse_decimal, lemma_split_append_free, lemma_split_free, lemma_split_push_sep, lower_seq, owned, parse_u32, parse_u32_spec, split_char, split_on, starts_with, str_eq, strip_prefix, to_ascii_lowercase, u32_to_string};
use crate::exec::toolchain::{add_extension, with_added_ext};

verus! {

/// A `major.minor.patch` version number.
#[derive(Debug, Clone, Copy, PartialEq, Eq, Structural)]
pub struct Version {
    pub major: u32,
    pub minor: u32,
    pub patch: u32,
}

/// The version a text stands for: exactly three dot-separated numbers.
pub open spec fn version_spec(s: Seq<char>) -> Option<Version> {
    let p = split_on(s, '.');
    if p.len() == 3 && parse_u32_spec(p[0]) is Some && parse_u32_spec(p[1]) is Some
        && parse_u32_spec(p[2]) is Some {
        Some(
            Version {
                major: parse_u32_spec(p[0]).unwrap(),
                minor: parse_u32_spec(p[1]).unwrap(),
                patch: parse_u32_spec(p[2]).unwrap(),
            },
        )
    } else {
        None
    }
}

pub open spec fn version_text(v: Version) -> Seq<char> {
    decimal(v.major as nat) + "."@ + decimal(v.minor as nat) + "."@ + decimal(v.patch as nat)
}

impl Version {
    /// Reads a version; any other shape is refused with `MimicTomlSemver`.
    pub fn from_str(s: &str) -> (res: Result<Version, Error>)
        ensures
            match version_spec(s@) {
                Some(v) => res == Ok::<Version, Error>(v),
                None => res matches Err(Error::MimicTomlSemver(m)) && m@ == s@,
            },
    {
        let parts = split_char(s, '.');
        let ghost p = parts@.map_values(|x: String| x@);
        if parts.len() != 3 {
            return Err(Error::MimicTomlSemver(owned(s)));
        }
        assert(p[0] == parts@[0]@ && p[1] == parts@[1]@ && p[2] == parts@[2]@);
        let major = parse_u32(parts[0].as_str());
        let minor = parse_u32(parts[1].as_str());
        let patch = parse_u32(parts[2].as_str());
        match (major, minor, patch) {
            (Some(major), Some(minor), Some(patch)) => Ok(Version { major, minor, patch }),
            _ => Err(Error::MimicTomlSemver(owned(s))),
        }
    }

    /// The text `major.minor.patch`.
    pub fn to_string(&self) -> (res: String)
        ensures
            res@ == version_text(*self),
    {
        let mut s = u32_to_string(self.major);
        s.append(".");
        s.append(u32_to_string(self.minor).as_str());
        s.append(".");
        s.append(u32_to_string(self.patch).as_str());
        s
    }
}

proof fn lemma_decimal_no_dot(n: nat)
    ensures
        !decimal(n).contains('.'),
{
    lemma_decimal_digits(n);
    if decimal(n).contains('.') {
        let k = choose|k: int| 0 <= k < decimal(n).len() && decimal(n)[k] == '.';
        assert(is_digit(decimal(n)[k]));
    }
}

/// Reading back the text of a version gives the version.
pub proof fn law_version_roundtrip(v: Version)
    ensures
        version_spec(version_text(v)) == Some(v),
{
    let a = decimal(v.major as nat);
    let b = decimal(v.minor as nat);
    let c = decimal(v.patch as nat);
    lemma_decimal_no_dot(v.major as nat);
    lemma_decimal_no_dot(v.minor as nat);
    lemma_decimal_no_dot(v.patch as nat);
    lemma_parse_decimal(v.major);
    lemma_parse_decimal(v.minor);
    lemma_parse_decimal(v.patch);
    reveal_strlit(".");
    assert("."@ =~= seq!['.']);
    lemma_split_free(a, '.');
    lemma_split_push_sep(a, '.');
    assert(a + "."@ =~= a.push('.'));
    lemma_split_append_free(a + "."@, b, '.');
    assert(split_on(a + "."@ + b, '.') =~= seq![a, b]);
    lemma_split_push_sep(a + "."@ + b, '.');
    assert(a + "."@ + b + "."@ =~= (a + "."@ + b).push('.'));
    lemma_split_append_free(a + "."@ + b + "."@, c, '.');
    assert(split_on(version_text(v), '.') =~= seq![a, b, c]);
}

#[derive(Debug, Clone, Copy, PartialEq, Eq, Structural)]
pub enum Platform {
    Windows,
    Linux,
    Macos,
}

pub open spec fn shared_lib_name(p: Platform, name: Seq<char>) -> Seq<char> {
    match p {
        Platform::Windows => with_added_ext(name, "dll"@),
        Platform::Linux => "lib"@ + name + ".so"@,
        Platform::Macos => "lib"@ + name + ".dylib"@,
    }
}

/// The platform a target operating system name stands for, in the spelling Rust gives
/// its target operating systems.
pub open spec fn platform_of_os(os: Seq<char>) -> Option<Platform> {
    if os == "windows"@ {
        Some(Platform::Windows)
    } else if os == "linux"@ {
        Some(Platform::Linux)
    } else if os == "macos"@ {
        Some(Platform::Macos)
    } else {
        None
    }
}

impl Platform {
    /// The platform of the target operating system `target_os` (such as "linux"); the
    /// operating systems this tool does not support are refused.
    pub fn current(target_os: &str) -> (res: Result<Platform, Error>)
        ensures
            match platform_of_os(target_os@) {
                Some(p) => res == Ok::<Platform, Error>(p),
                None => res matches Err(Error::PlatformUnavailable),
            },
    {
        if str_eq(target_os, "windows") {
            Ok(Platform::Windows)
        } else if str_eq(target_os, "linux") {
            Ok(Platform::Linux)
        } else if str_eq(target_os, "macos") {
            Ok(Platform::Macos)
        } else {
            Err(Error::PlatformUnavailable)
        }
    }

    /// The file name of a shared library called `name` on this platform.
    pub fn fmt_shared_lib(self, name: &str) -> (res: String)
        ensures
            res@ == shared_lib_name(self, name@),
    {
        match self {
            Platform::Windows => add_extension(name, "dll"),
            Platform::Linux => concat3("lib", name, ".so"),
            Platform::Macos => concat3("lib", name, ".dylib"),
        }
    }
}

#[derive(Debug, Clone, Copy, PartialEq, Eq, Structural)]
pub enum Artefact {
    Executable,
    SharedLib,
    StaticLib,
}

/// The artefact kind a manifest name stands for.
pub open spec fn artefact_from_name(s: Seq<char>) -> Option<Artefact> {
    if s == "executable"@ {
        Some(Artefact::Executable)
    } else if s == "sharedlib"@ {
        Some(Artefact::SharedLib)
    } else if s == "staticlib"@ {
        Some(Artefact::StaticLib)
    } else {
        None
    }
}

impl Artefact {
    pub fn default() -> (res: Artefact)
        ensures
            res == Artefact::Executable,
    {
        Artefact::Executable
    }

    pub fn is_lib(self) -> (res: bool)
        ensures
            res == (self == Artefact::StaticLib || self == Artefact::SharedLib),
    {
        matches!(self, Artefact::StaticLib | Artefact::SharedLib)
    }

    /// Reads an artefact kind from its manifest name.
    pub fn from_str(s: &str) -> (res: Result<Artefact, Error>)
        ensures
            match artefact_from_name(s@) {
                Some(a) => res == Ok::<Artefact, Error>(a),
                None => res matches Err(Error::MimicTomlArtefact(m)) && m@ == s@,
            },
    {
        if str_eq(s, "executable") {
            Ok(Artefact::Executable)
        } else if str_eq(s, "sharedlib") {
            Ok(Artefact::SharedLib)
        } else if str_eq(s, "staticlib") {
            Ok(Artefact::StaticLib)
        } else {
            Err(Error::MimicTomlArtefact(owned(s)))
        }
    }
}

/// A build profile: one of the two built in, or one the manifest names.
#[derive(Debug, Clone, PartialEq, Eq, Hash)]
pub enum Profile {
    Debug,
    Release,
    Custom(String),
}

/// A profile as a value: custom profiles by the characters of their name.
pub enum ProfileView {
    Debug,
    Release,
    Custom(Seq<char>),
}

impl View for Profile {
    type V = ProfileView;

    open spec fn view(&self) -> ProfileView {
        match self {
            Profile::Debug => ProfileView::Debug,
            Profile::Release => ProfileView::Release,
            Profile::Custom(s) => ProfileView::Custom(s@),
        }
    }
}

/// The profile a name selects.
pub open spec fn profile_from_name(s: Seq<char>) -> ProfileView {
    if s == "debug"@ {
        ProfileView::Debug
    } else if s == "release"@ {
        ProfileView::Release
    } else {
        ProfileView::Custom(s)
    }
}

/// The name of a profile.
pub open spec fn profile_name(p: ProfileView) -> Seq<char> {
    match p {
        ProfileView::Debug => "debug"@,
        ProfileView::Release => "release"@,
        ProfileView::Custom(s) => s,
    }
}

impl Profile {
    pub fn default() -> (res: Profile)
        ensures
            res@ == ProfileView::Debug,
    {
        Profile::Debug
    }

    pub fn is_debug(&self) -> (res: bool)
        ensures
            res == (self@ == ProfileView::Debug),
    {
        matches!(self, Profile::Debug)
    }

    pub fn is_release(&self) -> (res: bool)
        ensures
            res == (self@ == ProfileView::Release),
    {
        matches!(self, Profile::Release)
    }

    /// The macro a built in profile defines for the code it builds.
    pub fn as_define(&self) -> (res: Option<&'static str>)
        ensures
            match self@ {
                ProfileView::Debug => res matches Some(d) && d@ == "VANGO_DEBUG"@,
                ProfileView::Release => res matches Some(d) && d@ == "VANGO_RELEASE"@,
                ProfileView::Custom(_) => res is None,
            },
    {
        match self {
            Profile::Debug => Some("VANGO_DEBUG"),
            Profile::Release => Some("VANGO_RELEASE"),
            Profile::Custom(_) => None,
        }
    }

    /// The command line switch that selects this profile.
    pub fn as_arg(&self) -> (res: String)
        ensures
            res@ == match self@ {
                ProfileView::Debug => "--debug"@,
                ProfileView::Release => "--release"@,
                ProfileView::Custom(s) => "--profile="@ + s,
            },
    {
        match self {
            Profile::Debug => owned("--debug"),
            Profile::Release => owned("--release"),
            Profile::Custom(s) => concat("--profile=", s.as_str()),
        }
    }

    /// Reads a profile from its name; every name is accepted.
    pub fn from_str(s: &str) -> (res: Result<Profile, Error>)
        ensures
            res matches Ok(p) && p@ == profile_from_name(s@),
    {
        if str_eq(s, "debug") {
            Ok(Profile::Debug)
        } else if str_eq(s, "release") {
            Ok(Profile::Release)
        } else {
            Ok(Profile::Custom(owned(s)))
        }
    }

    /// The name of the profile.
    pub fn to_string(&self) -> (res: String)
        ensures
            res@ == profile_name(self@),
    {
        match self {
            Profile::Debug => owned("debug"),
            Profile::Release => owned("release"),
            Profile::Custom(s) => owned(s.as_str()),
        }
    }

    /// Whether two profiles are the same profile.
    pub fn same(&self, other: &Profile) -> (res: bool)
        ensures
            res == (self@ == other@),
    {
        match (self, other) {
            (Profile::Debug, Profile::Debug) => true,
            (Profile::Release, Profile::Release) => true,
            (Profile::Custom(a), Profile::Custom(b)) => str_eq(a.as_str(), b.as_str()),
            _ => false,
        }
    }

    pub fn copy(&self) -> (res: Profile)
        ensures
            res@ == self@,
    {
        match self {
            Profile::Debug => Profile::Debug,
            Profile::Release => Profile::Release,
            Profile::Custom(s) => Profile::Custom(owned(s.as_str())),
        }
    }
}

/// The name of a profile selects the profile again.
pub proof fn law_profile_name_roundtrip(s: Seq<char>)
    ensures
        profile_name(profile_from_name(s)) == s,
{
}

/// Naming a profile and reading the name back gives the profile, for every profile
/// but the custom ones named like a built in profile.
pub proof fn law_profile_from_name_roundtrip(p: ProfileView)
    requires
        p != ProfileView::Custom("debug"@),
        p != ProfileView::Custom("release"@),
    ensures
        profile_from_name(profile_name(p)) == p,
{
    reveal_strlit("debug");
    reveal_strlit("release");
    assert("debug"@ != "release"@) by {
        assert("debug"@.len() != "release"@.len());
    }
}

/// A language standard, C++ or C, numbered so that later standards compare greater:
/// standards from the years 2000 on carry 100 plus their two year digits.
#[derive(Debug, Clone, Copy, PartialEq, Eq, Structural)]
pub enum Language {
    Cpp(u32),
    C(u32),
}

/// The number a standard is written with (`20` for C++20, `98` for C++98).
pub open spec fn lang_number(n: u32) -> nat {
    if n >= 100 { (n - 100) as nat } else { n as nat }
}

/// How a standard is written: `c++20`, `c11`.
pub open spec fn language_text(l: Language) -> Seq<char> {
    match l {
        Language::Cpp(n) => "c++"@ + decimal(lang_number(n)),
        Language::C(n) => "c"@ + decimal(lang_number(n)),
    }
}

pub open spec fn valid_cpp(n: u32) -> bool {
    n == 98 || n == 3 || n == 11 || n == 14 || n == 17 || n == 20 || n == 23
}

pub open spec fn valid_c(n: u32) -> bool {
    n == 89 || n == 99 || n == 11 || n == 17 || n == 23
}

pub open spec fn std_number(n: u32) -> u32 {
    if n < 80 { (100 + n) as u32 } else { n }
}

/// The language and number a text such as `C++20` or `c11` spells, compared without
/// regard to ASCII case: `(true, 20)` for C++20, `(false, 11)` for C11.
pub open spec fn standard_parts(s: Seq<char>) -> Option<(bool, u32)> {
    let l = lower_seq(s);
    if has_prefix(l, "c++"@) {
        match parse_u32_spec(l.skip("c++"@.len() as int)) {
            Some(n) => Some((true, n)),
            None => None,
        }
    } else if has_prefix(l, "c"@) {
        match parse_u32_spec(l.skip("c"@.len() as int)) {
            Some(n) => Some((false, n)),
            None => None,
        }
    } else {
        None
    }
}

/// The standard a text names.
pub open spec fn language_spec(s: Seq<char>) -> Option<Language> {
    match standard_parts(s) {
        Some((true, n)) => if valid_cpp(n) { Some(Language::Cpp(std_number(n))) } else { None },
        Some((false, n)) => if valid_c(n) { Some(Language::C(std_number(n))) } else { None },
        None => None,
    }
}

/// Splits a standard's text into its language and number; the lower-cased text comes
/// back alongside, for error messages.
pub fn read_standard(value: &str) -> (res: (String, Option<(bool, u32)>))
    ensures
        res.0@ == lower_seq(value@),
        res.1 == standard_parts(value@),
{
    let cpp = to_ascii_lowercase(value);
    if starts_with(cpp.as_str(), "c++") {
        match strip_prefix(cpp.as_str(), "c++") {
            Some(rest) => match parse_u32(rest.as_str()) {
                Some(num) => (cpp, Some((true, num))),
                None => (cpp, None),
            },
            None => (cpp, None),
        }
    } else {
        match strip_prefix(cpp.as_str(), "c") {
            Some(rest) => match parse_u32(rest.as_str()) {
                Some(num) => (cpp, Some((false, num))),
                None => (cpp, None),
            },
            None => (cpp, None),
        }
    }
}

impl Language {
    pub fn is_cpp(self) -> (res: bool)
        ensures
            res == (self is Cpp),
    {
        matches!(self, Language::Cpp(_))
    }

    /// The extension of this language's source files.
    pub fn src_ext(self) -> (res: &'static str)
        ensures
            res@ == (if self is Cpp { "cpp"@ } else { "c"@ }),
    {
        match self {
            Language::Cpp(..) => "cpp",
            Language::C(..) => "c",
        }
    }

    /// How the standard is written, e.g. `c++20`.
    pub fn to_string(&self) -> (res: String)
        ensures
            res@ == language_text(*self),
    {
        match *self {
            Language::Cpp(n) => {
                let k = if n >= 100 { n - 100 } else { n };
                concat("c++", u32_to_string(k).as_str())
            },
            Language::C(n) => {
                let k = if n >= 100 { n - 100 } else { n };
                concat("c", u32_to_string(k).as_str())
            },
        }
    }

    /// Reads a standard such as `C++20` or `c11`; anything else is refused with
    /// `InvalidCppStd` carrying the lower-cased text.
    pub fn from_str(value: &str) -> (res: Result<Language, Error>)
        ensures
            match language_spec(value@) {
                Some(l) => res == Ok::<Language, Error>(l),
                None => res matches Err(Error::InvalidCppStd(m)) && m@ == lower_seq(value@),
            },
    {
        let (cpp, parts) = read_standard(value);
        match parts {
            Some((true, num)) => {
                if !(num == 98 || num == 3 || num == 11 || num == 14 || num == 17 || num == 20
                    || num == 23) {
                    Err(Error::InvalidCppStd(cpp))
                } else if num < 80 {
                    Ok(Language::Cpp(100 + num))
                } else {
                    Ok(Language::Cpp(num))
                }
            },
            Some((false, num)) => {
                if !(num == 89 || num == 99 || num == 11 || num == 17 || num == 23) {
                    Err(Error::InvalidCppStd(cpp))
                } else if num < 80 {
                    Ok(Language::C(100 + num))
                } else {
                    Ok(Language::C(num))
                }
            },
            None => Err(Error::InvalidCppStd(cpp)),
        }
    }
}

/// The standards the library knows.
pub open spec fn valid_language(l: Language) -> bool {
    match l {
        Language::Cpp(n) => n == 98 || n == 103 || n == 111 || n == 114 || n == 117 || n == 120
            || n == 123,
        Language::C(n) => n == 89 || n == 99 || n == 111 || n == 117 || n == 123,
    }
}

/// Lower-casing leaves digits after a text without capitals as they are.
pub proof fn lemma_lower_digits(prefix: Seq<char>, n: nat)
    requires
        forall|i: int| 0 <= i < prefix.len() ==> !is_upper(#[trigger] prefix[i]),
    ensures
        lower_seq(prefix + decimal(n)) == prefix + decimal(n),
{
    lemma_decimal_digits(n);
    let t = prefix + decimal(n);
    assert forall|i: int| 0 <= i < t.len() implies lower(#[trigger] t[i]) == t[i] by {
        if i >= prefix.len() {
            assert(t[i] == decimal(n)[i - prefix.len()]);
            assert(is_digit(decimal(n)[i - prefix.len()]));
        }
    }
    assert(lower_seq(t) =~= t);
}

/// Every standard read from a text is one the library knows.
pub proof fn law_language_spec_valid(s: Seq<char>)
    ensures
        language_spec(s) matches Some(l) ==> valid_language(l),
{
}

/// Writing a known standard and reading it back gives the standard.
pub proof fn law_language_roundtrip(l: Language)
    requires
        valid_language(l),
    ensures
        language_spec(language_text(l)) == Some(l),
{
    reveal_strlit("c++");
    reveal_strlit("c");
    match l {
        Language::Cpp(n) => {
            let k = lang_number(n);
            lemma_lower_digits("c++"@, k);
            let t = "c++"@ + decimal(k);
            assert(t.take(3) =~= "c++"@);
            assert(t.skip(3) =~= decimal(k));
            lemma_parse_decimal(k as u32);
        },
        Language::C(n) => {
            let k = lang_number(n);
            lemma_lower_digits("c"@, k);
            lemma_decimal_digits(k);
            let t = "c"@ + decimal(k);
            assert(t[1] == decimal(k)[0]);
            assert(is_digit(decimal(k)[0]));
            assert(!has_prefix(t, "c++"@)) by {
                if has_prefix(t, "c++"@) {
                    assert(t.take(3)[1] == '+');
                }
            }
            assert(t.take(1) =~= "c"@);
            assert(t.skip(1) =~= decimal(k));
            lemma_parse_decimal(k as u32);
        },
    }
}

#[derive(Debug, Clone, PartialEq, Eq)]
pub struct VcpkgConfig {
    pub triplet: String,
}

#[derive(Debug, Clone, Copy, PartialEq, Eq, PartialOrd, Ord, Structural)]
pub enum WarnLevel {
    Off,
    Basic,
    High,
}

#[derive(Debug, Clone, Copy, PartialEq, Eq, Structural)]
pub enum Runtime {
    DynamicDebug,
    DynamicRelease,
    StaticDebug,
    StaticRelease,
}

/// A header compiled ahead, and the sources that use it or do not.
#[derive(Debug, Clone, PartialEq, Eq)]
pub struct PrecompiledHeader {
    pub header: String,
    pub used_by: Vec<String>,
    pub ignored_by: Vec<String>,
}

/// The sanitizers a profile asks for; `None` leaves the inherited choice.
#[derive(Debug, Default, Clone, Copy, PartialEq, Eq, Structural)]
pub struct Sanitizer {
    pub address: Option<bool>,
    pub thread: Option<bool>,
    pub leak: Option<bool>,
    pub undefined: Option<bool>,
}

} // verus!
