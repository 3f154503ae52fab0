//! The JSON library description: a prebuilt library, its standard, and where each
//! profile finds its headers and binaries.
use vstd::prelude::*;
use crate::config::build::profile::pick;
use crate::config::elems::profile_name;
use crate::config::profiles::{entries_map, KeyMap};
use crate::config::Profile;
use crate::error::Error;
use crate::repr::buildfile::{opt_strs, or_empty, BuildFile, BuildProfileView};
use crate::repr::{lang_spec, language_of, Lang};
use crate::repr::order::lang_le;
use crate::text::{append_strings, concat, copy_strings, lower_seq, one_string, opt_str, owned, str_eq, strs};

verus! {

/// A profile section as written: each field may be left out.
#[derive(Debug, Default, Clone, PartialEq, Eq)]
pub struct SerdeLibProfile {
    pub inherits: Option<String>,
    pub include_dir: Option<String>,
    pub libdir: Option<String>,
    pub binaries: Option<Vec<String>>,
    pub defines: Option<Vec<String>>,
}

pub struct SerdeLibProfileView {
    pub inherits: Option<Seq<char>>,
    pub include_dir: Option<Seq<char>>,
    pub libdir: Option<Seq<char>>,
    pub binaries: Option<Seq<Seq<char>>>,
    pub defines: Option<Seq<Seq<char>>>,
}

impl View for SerdeLibProfile {
    type V = SerdeLibProfileView;

    open spec fn view(&self) -> SerdeLibProfileView {
        SerdeLibProfileView {
            inherits: opt_str(self.inherits),
            include_dir: opt_str(self.include_dir),
            libdir: opt_str(self.libdir),
            binaries: opt_strs(self.binaries),
            defines: opt_strs(self.defines),
        }
    }
}

fn copy_opt_text(o: &Option<String>) -> (res: Option<String>)
    ensures
        opt_str(res) == opt_str(*o),
{
    match o {
        Some(s) => Some(owned(s.as_str())),
        None => None,
    }
}

fn copy_opt_strings(o: &Option<Vec<String>>) -> (res: Option<Vec<String>>)
    ensures
        opt_strs(res) == opt_strs(*o),
{
    match o {
        Some(v) => Some(copy_strings(v)),
        None => None,
    }
}

fn or_copy(o: &Option<Vec<String>>) -> (res: Vec<String>)
    ensures
        strs(res@) == or_empty(opt_strs(*o)),
{
    match o {
        Some(v) => copy_strings(v),
        None => {
            let res: Vec<String> = Vec::new();
            assert(strs(res@) =~= Seq::<Seq<char>>::empty());
            res
        },
    }
}

impl SerdeLibProfile {
    /// A copy of the section.
    pub fn copy(&self) -> (res: SerdeLibProfile)
        ensures
            res@ == self@,
    {
        SerdeLibProfile {
            inherits: copy_opt_text(&self.inherits),
            include_dir: copy_opt_text(&self.include_dir),
            libdir: copy_opt_text(&self.libdir),
            binaries: copy_opt_strings(&self.binaries),
            defines: copy_opt_strings(&self.defines),
        }
    }
}

/// A library description as written: the library's fields, its defaults, and its
/// profile sections in order.
#[derive(Debug, Clone, PartialEq, Eq)]
pub struct SerdeLibFile {
    pub library: String,
    pub lang: String,
    pub defaults: SerdeLibProfile,
    pub profile: Vec<(String, SerdeLibProfile)>,
}

/// What a profile of a library gives its users.
#[derive(Debug, Clone, PartialEq, Eq)]
pub struct LibProfile {
    pub include_dir: String,
    pub libdir: String,
    pub binaries: Vec<String>,
    pub defines: Vec<String>,
}

pub struct LibProfileView {
    pub include_dir: Seq<char>,
    pub libdir: Seq<char>,
    pub binaries: Seq<Seq<char>>,
    pub defines: Seq<Seq<char>>,
}

impl View for LibProfile {
    type V = LibProfileView;

    open spec fn view(&self) -> LibProfileView {
        LibProfileView {
            include_dir: self.include_dir@,
            libdir: self.libdir@,
            binaries: strs(self.binaries@),
            defines: strs(self.defines@),
        }
    }
}

/// A built in profile under the defaults: headers in `include` and binaries in `libdir`
/// unless set.
pub open spec fn lib_base(d: SerdeLibProfileView, libdir: Seq<char>) -> LibProfileView {
    LibProfileView {
        include_dir: pick(d.include_dir, "include"@),
        libdir: pick(d.libdir, libdir),
        binaries: or_empty(d.binaries),
        defines: or_empty(d.defines),
    }
}

/// A profile with a section laid over it: the directories it sets replace, the lists
/// it sets are appended.
pub open spec fn lib_merged(b: LibProfileView, o: SerdeLibProfileView) -> LibProfileView {
    LibProfileView {
        include_dir: pick(o.include_dir, b.include_dir),
        libdir: pick(o.libdir, b.libdir),
        binaries: b.binaries + or_empty(o.binaries),
        defines: b.defines + or_empty(o.defines),
    }
}

impl LibProfile {
    fn base(defaults: &SerdeLibProfile, libdir: &str) -> (res: LibProfile)
        ensures
            res@ == lib_base(defaults@, libdir@),
    {
        LibProfile {
            include_dir: match &defaults.include_dir {
                Some(s) => owned(s.as_str()),
                None => owned("include"),
            },
            libdir: match &defaults.libdir {
                Some(s) => owned(s.as_str()),
                None => owned(libdir),
            },
            binaries: or_copy(&defaults.binaries),
            defines: or_copy(&defaults.defines),
        }
    }

    /// The debug profile under the defaults, its binaries in `bin/debug` unless set.
    pub fn debug(defaults: &SerdeLibProfile) -> (res: LibProfile)
        ensures
            res@ == lib_base(defaults@, "bin/debug"@),
    {
        LibProfile::base(defaults, "bin/debug")
    }

    /// The release profile under the defaults, its binaries in `bin/release` unless set.
    pub fn release(defaults: &SerdeLibProfile) -> (res: LibProfile)
        ensures
            res@ == lib_base(defaults@, "bin/release"@),
    {
        LibProfile::base(defaults, "bin/release")
    }

    /// This profile with the section `other` laid over it.
    pub fn merge(self, other: SerdeLibProfile) -> (res: LibProfile)
        ensures
            res@ == lib_merged(self@, other@),
    {
        let mut res = self;
        match other.include_dir {
            Some(s) => res.include_dir = s,
            None => {},
        }
        match other.libdir {
            Some(s) => res.libdir = s,
            None => {},
        }
        let mut more = or_copy(&other.binaries);
        append_strings(&mut res.binaries, &mut more);
        let mut more = or_copy(&other.defines);
        append_strings(&mut res.defines, &mut more);
        res
    }
}

pub open spec fn lib_sections(s: Seq<(String, SerdeLibProfile)>) -> Seq<(Seq<char>, SerdeLibProfileView)> {
    s.map_values(|e: (String, SerdeLibProfile)| (e.0@, e.1@))
}

/// A section is accepted when it is one of the built in profiles or names the profile
/// it inherits.
pub open spec fn lib_section_accepted(k: Seq<char>, v: SerdeLibProfileView) -> bool {
    k == "debug"@ || k == "release"@ || v.inherits is Some
}

/// The built in profile a section builds on: its own name when it is one, else the
/// profile it inherits.
pub open spec fn lib_base_of(k: Seq<char>, v: SerdeLibProfileView) -> Option<Seq<char>> {
    if k == "debug"@ || k == "release"@ {
        Some(k)
    } else {
        v.inherits
    }
}

/// The profiles of a library description: the built in ones under the defaults, each
/// laid over by its section, and each custom section that inherits a built in profile
/// laid over that profile; custom sections inheriting anything else are left out.
pub open spec fn lib_profiles(d: SerdeLibProfileView, s: Seq<(Seq<char>, SerdeLibProfileView)>) -> Map<Seq<char>, LibProfileView>
    decreases s.len(),
{
    if s.len() == 0 {
        Map::empty().insert("debug"@, lib_base(d, "bin/debug"@)).insert(
            "release"@,
            lib_base(d, "bin/release"@),
        )
    } else {
        let prev = lib_profiles(d, s.drop_last());
        let (k, v) = s.last();
        if lib_base_of(k, v) == Some("debug"@) {
            prev.insert(k, lib_merged(lib_base(d, "bin/debug"@), v))
        } else if lib_base_of(k, v) == Some("release"@) {
            prev.insert(k, lib_merged(lib_base(d, "bin/release"@), v))
        } else {
            prev
        }
    }
}

/// The section at `j` is the first that is not accepted.
pub open spec fn first_bad_lib_entry(s: Seq<(Seq<char>, SerdeLibProfileView)>, j: int) -> bool {
    &&& 0 <= j < s.len()
    &&& !lib_section_accepted(s[j].0, s[j].1)
    &&& forall|i: int| 0 <= i < j ==> lib_section_accepted(#[trigger] s[i].0, s[i].1)
}

/// The library profile a build profile named `k` of project `project` provides: its
/// public headers, the directory it is built into, and the project's own library.
pub open spec fn lib_of_build(project: Seq<char>, k: Seq<char>, p: BuildProfileView) -> LibProfileView {
    LibProfileView {
        include_dir: p.include_pub,
        libdir: "bin/"@ + k,
        binaries: seq![project],
        defines: p.defines,
    }
}

pub open spec fn libs_of_builds(project: Seq<char>, m: Map<Seq<char>, BuildProfileView>) -> Map<Seq<char>, LibProfileView> {
    Map::new(|k: Seq<char>| m.dom().contains(k), |k: Seq<char>| lib_of_build(project, k, m[k]))
}

/// A resolved library description.
#[derive(Debug)]
pub struct LibFile {
    pub library: String,
    pub lang: Lang,
    pub profile: KeyMap<String, LibProfile>,
}

impl LibFile {
    /// Resolves a library description as written. The profile sections are checked in
    /// order, then the language standard.
    #[verifier::loop_isolation(false)]
    pub fn from_serde(file: SerdeLibFile) -> (res: Result<LibFile, Error>)
        ensures
            ({
                let s = lib_sections(file.profile@);
                if exists|j: int| first_bad_lib_entry(s, j) {
                    res matches Err(Error::InvalidCustomProfile(k)) && exists|j: int|
                        first_bad_lib_entry(s, j) && k@ == s[j].0
                } else if lang_spec(file.lang@) is None {
                    res matches Err(Error::InvalidCppStd(m)) && m@ == lower_seq(file.lang@)
                } else {
                    res matches Ok(l) && l.library@ == file.library@ && l.lang == lang_spec(
                        file.lang@,
                    ).unwrap() && l.profile@ == lib_profiles(file.defaults@, s)
                }
            }),
    {
        let ghost s = lib_sections(file.profile@);
        let SerdeLibFile { library, lang, defaults, profile } = file;
        let mut profiles: KeyMap<String, LibProfile> = KeyMap::new();
        profiles.insert(owned("debug"), LibProfile::debug(&defaults));
        profiles.insert(owned("release"), LibProfile::release(&defaults));
        let mut i: usize = 0;
        assert(s.take(0) =~= Seq::<(Seq<char>, SerdeLibProfileView)>::empty());
        while i < profile.len()
            invariant
                s == lib_sections(profile@),
                i <= profile@.len(),
                forall|j: int| 0 <= j < i ==> lib_section_accepted(#[trigger] s[j].0, s[j].1),
                profiles@ == lib_profiles(defaults@, s.take(i as int)),
            decreases profile@.len() - i,
        {
            let (k, v) = &profile[i];
            assert(s[i as int] == (k@, v@));
            assert(s.take(i + 1).drop_last() =~= s.take(i as int));
            assert(s.take(i + 1).last() == s[i as int]);
            let base: Option<&str> = if str_eq(k.as_str(), "debug") || str_eq(k.as_str(), "release") {
                Some(k.as_str())
            } else {
                match &v.inherits {
                    Some(b) => Some(b.as_str()),
                    None => None,
                }
            };
            let is_debug = match base {
                Some(b) => str_eq(b, "debug"),
                None => false,
            };
            let is_release = match base {
                Some(b) => str_eq(b, "release"),
                None => false,
            };
            if is_debug {
                profiles.insert(owned(k.as_str()), LibProfile::debug(&defaults).merge(v.copy()));
            } else if is_release {
                profiles.insert(owned(k.as_str()), LibProfile::release(&defaults).merge(v.copy()));
            } else if v.inherits.is_none() {
                proof {
                    assert(first_bad_lib_entry(s, i as int));
                }
                return Err(Error::InvalidCustomProfile(owned(k.as_str())));
            }
            i = i + 1;
        }
        assert(s.take(s.len() as int) =~= s);
        assert(!exists|j: int| first_bad_lib_entry(s, j));
        let lang = match Lang::try_from(lang.as_str()) {
            Ok(l) => l,
            Err(e) => return Err(e),
        };
        Ok(LibFile { library, lang, profile: profiles })
    }

    /// Takes the profile asked for out of the description.
    pub fn take(&mut self, profile: &Profile) -> (res: Result<LibProfile, Error>)
        ensures
            final(self).profile@ == old(self).profile@.remove(profile_name(profile@)),
            final(self).library == old(self).library,
            final(self).lang == old(self).lang,
            old(self).profile@.dom().contains(profile_name(profile@)) ==> (res matches Ok(r)
                && r@ == old(self).profile@[profile_name(profile@)]),
            !old(self).profile@.dom().contains(profile_name(profile@)) ==> (res matches Err(
                Error::ProfileUnavailable(n, q),
            ) && n@ == old(self).library@ && q@ == profile_name(profile@)),
    {
        let key = profile.to_string();
        match self.profile.remove(&key) {
            Some(p) => Ok(p),
            None => Err(Error::ProfileUnavailable(owned(self.library.as_str()), key)),
        }
    }

    /// The library a built project provides: each of its profiles gives its public
    /// headers, its output directory and the project's own library.
    pub fn from_build(value: BuildFile) -> (res: LibFile)
        ensures
            res.library == value.project,
            res.lang == value.lang,
            res.profile@ == libs_of_builds(value.project@, value.profile@),
    {
        let BuildFile { project, lang, dependencies: _, profile } = value;
        let ghost m = profile@;
        let entries = profile.into_entries();
        let ghost es = entries@;
        let mut out: KeyMap<String, LibProfile> = KeyMap::new();
        let mut i: usize = 0;
        assert(es.take(0) =~= Seq::<(String, crate::repr::buildfile::BuildProfile)>::empty());
        assert(out@ =~= libs_of_builds(project@, entries_map(es.take(0))));
        while i < entries.len()
            invariant
                es == entries@,
                m == entries_map(es),
                i <= es.len(),
                out@ == libs_of_builds(project@, entries_map(es.take(i as int))),
            decreases es.len() - i,
        {
            let (k, p) = &entries[i];
            let lib = LibProfile {
                include_dir: owned(p.include_pub.as_str()),
                libdir: concat("bin/", k.as_str()),
                binaries: one_string(project.as_str()),
                defines: copy_strings(&p.defines),
            };
            assert(lib@ == lib_of_build(project@, k@, p@));
            let ghost before = out@;
            out.insert(owned(k.as_str()), lib);
            assert(es.take(i + 1).drop_last() =~= es.take(i as int));
            assert(entries_map(es.take(i + 1)) == entries_map(es.take(i as int)).insert(k@, p@));
            assert(out@ =~= libs_of_builds(project@, entries_map(es.take(i + 1))));
            i = i + 1;
        }
        assert(es.take(es.len() as int) =~= es);
        LibFile { library: project, lang, profile: out }
    }

    /// Hands the description back when its standard is no later than `max_lang`. A
    /// later one is refused with `IncompatibleCppStd`, naming this library, its
    /// standard and the limit; the package that sets the limit is not known here, so
    /// the name in the third place is empty.
    pub fn validate(self, max_lang: Lang) -> (res: Result<LibFile, Error>)
        ensures
            lang_le(self.lang, max_lang) ==> res == Ok::<LibFile, Error>(self),
            !lang_le(self.lang, max_lang) ==> (res matches Err(
                Error::IncompatibleCppStd(n, l, o, ol),
            ) && n@ == self.library@ && l == language_of(self.lang) && o@.len() == 0
                && ol == language_of(max_lang)),
    {
        if self.lang > max_lang {
            let l = self.lang.as_language();
            Err(Error::IncompatibleCppStd(self.library, l, String::new(), max_lang.as_language()))
        } else {
            Ok(self)
        }
    }
}

} // verus!
