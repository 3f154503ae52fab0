//! The manifest of a prebuilt library: where its headers and binaries are for each
//! profile. A package that builds a library can stand in for one.
pub mod profile;
pub mod raw;

use vstd::prelude::*;
use crate::config::build::profile::pick;
use crate::config::build::PackageManifest;
use crate::config::elems::{language_spec, profile_from_name, profile_name, version_spec};
use crate::config::order::language_le;
use crate::config::profiles::{entries_map, lemma_entries_dom, lemma_entries_value, ProfileMap};
use crate::config::{Artefact, Language, Platform, Profile, ProfileView, Version};
use crate::error::Error;
use crate::exec::toolchain::{spec_system_default, toolchain_name};
use crate::exec::Toolchain;
use crate::paths::{join, path_join};
use crate::text::{lower_seq, one_string, owned, str_eq, strs};
use profile::{lib_debug_profile, lib_layered, lib_release_profile};

verus! {

/// Where one profile of a library keeps its headers and binaries, and what it defines.
#[derive(Debug, Clone, PartialEq, Eq)]
pub struct LibProfile {
    pub include_dir: String,
    pub libdir: String,
    pub binaries: Vec<String>,
    pub defines: Vec<String>,
}

pub struct LibProfileView {
    pub include_dir: Seq<char>,
    pub libdir: Seq<char>,
    pub binaries: Seq<Seq<char>>,
    pub defines: Seq<Seq<char>>,
}

impl View for LibProfile {
    type V = LibProfileView;

    open spec fn view(&self) -> LibProfileView {
        LibProfileView {
            include_dir: self.include_dir@,
            libdir: self.libdir@,
            binaries: strs(self.binaries@),
            defines: strs(self.defines@),
        }
    }
}

/// A library manifest, resolved: the built in profiles always among its profiles.
#[derive(Debug)]
pub struct LibManifest {
    pub name: String,
    pub version: Version,
    pub lang: Language,
    pub profiles: ProfileMap<LibProfile>,
}

pub open spec fn lib_section_ok(k: Seq<char>, v: raw::LibProfileView) -> bool {
    pick(v.inherits, k) == "debug"@ || pick(v.inherits, k) == "release"@
}

pub open spec fn lib_section_profile(defaults: raw::LibProfileView, k: Seq<char>, v: raw::LibProfileView) -> LibProfileView {
    let base = if pick(v.inherits, k) == "debug"@ {
        lib_debug_profile()
    } else {
        lib_release_profile()
    };
    lib_layered(lib_layered(base, defaults), v)
}

pub open spec fn lib_sections_view(s: Seq<(String, raw::LibProfile)>) -> Seq<(Seq<char>, raw::LibProfileView)> {
    s.map_values(|e: (String, raw::LibProfile)| (e.0@, e.1@))
}

/// The profiles of a library manifest: the built in ones under the defaults, then each
/// section in order.
pub open spec fn lib_profiles_spec(defaults: raw::LibProfileView, s: Seq<(Seq<char>, raw::LibProfileView)>) -> Map<ProfileView, LibProfileView>
    decreases s.len(),
{
    if s.len() == 0 {
        Map::empty().insert(ProfileView::Debug, lib_layered(lib_debug_profile(), defaults)).insert(
            ProfileView::Release,
            lib_layered(lib_release_profile(), defaults),
        )
    } else {
        lib_profiles_spec(defaults, s.drop_last()).insert(
            profile_from_name(s.last().0),
            lib_section_profile(defaults, s.last().0, s.last().1),
        )
    }
}

pub open spec fn first_bad_lib_section(s: Seq<(Seq<char>, raw::LibProfileView)>, j: int) -> bool {
    &&& 0 <= j < s.len()
    &&& !lib_section_ok(s[j].0, s[j].1)
    &&& forall|i: int| 0 <= i < j ==> lib_section_ok(#[trigger] s[i].0, s[i].1)
}

pub open spec fn all_lib_sections_ok(s: Seq<(Seq<char>, raw::LibProfileView)>) -> bool {
    forall|i: int| 0 <= i < s.len() ==> lib_section_ok(#[trigger] s[i].0, s[i].1)
}

/// Where a package built as a library by `toolchain` keeps its binaries: `bin` for the
/// host's own toolchain, else the toolchain's directory below it.
pub open spec fn lib_base(toolchain: Toolchain, host: Platform) -> Seq<char> {
    if toolchain == spec_system_default(host) {
        "bin"@
    } else {
        path_join(host, "bin"@, toolchain_name(toolchain))
    }
}

/// The library profile a package profile provides.
pub open spec fn provided_profile(
    name: Seq<char>,
    haslib: bool,
    base: Seq<char>,
    host: Platform,
    k: ProfileView,
    p: crate::config::build::BuildProfileView,
) -> LibProfileView {
    LibProfileView {
        include_dir: "include"@,
        libdir: path_join(host, base, profile_name(k)),
        binaries: if haslib { seq![name] } else { Seq::empty() },
        defines: p.defines,
    }
}

impl LibManifest {
    /// Resolves a library manifest as written: the profile sections in order, then the
    /// version, then the language standard.
    #[verifier::loop_isolation(false)]
    pub fn try_from(value: raw::LibManifest) -> (res: Result<LibManifest, Error>)
        ensures
            ({
                let l = value.staticlib;
                let s = lib_sections_view(value.profile@);
                if !all_lib_sections_ok(s) {
                    res matches Err(Error::InvalidCustomProfile(k)) && exists|j: int|
                        first_bad_lib_section(s, j) && k@ == s[j].0
                } else if version_spec(l.version@) is None {
                    res matches Err(Error::MimicTomlSemver(m)) && m@ == l.version@
                } else if language_spec(l.lang@) is None {
                    res matches Err(Error::InvalidCppStd(m)) && m@ == lower_seq(l.lang@)
                } else {
                    res matches Ok(m) && m.name@ == l.name@ && m.version == version_spec(
                        l.version@,
                    ).unwrap() && m.lang == language_spec(l.lang@).unwrap() && m.profiles@
                        == lib_profiles_spec(l.defaults@, s)
                }
            }),
    {
        let ghost s = lib_sections_view(value.profile@);
        let raw::LibManifest { staticlib, profile } = value;
        let mut profiles: ProfileMap<LibProfile> = ProfileMap::new();
        profiles.insert(Profile::Debug, LibProfile::default_debug().layer(staticlib.defaults.copy()));
        profiles.insert(
            Profile::Release,
            LibProfile::default_release().layer(staticlib.defaults.copy()),
        );
        let mut i: usize = 0;
        assert(s.take(0) =~= Seq::<(Seq<char>, raw::LibProfileView)>::empty());
        while i < profile.len()
            invariant
                s == lib_sections_view(profile@),
                i <= profile@.len(),
                forall|j: int| 0 <= j < i ==> lib_section_ok(#[trigger] s[j].0, s[j].1),
                profiles@ == lib_profiles_spec(staticlib.defaults@, s.take(i as int)),
            decreases profile@.len() - i,
        {
            let (k, v) = &profile[i];
            assert(s[i as int] == (k@, v@));
            let base = match &v.inherits {
                Some(b) => b.as_str(),
                None => k.as_str(),
            };
            let prof = if str_eq(base, "debug") {
                LibProfile::default_debug()
            } else if str_eq(base, "release") {
                LibProfile::default_release()
            } else {
                proof {
                    assert(first_bad_lib_section(s, i as int));
                }
                return Err(Error::InvalidCustomProfile(owned(k.as_str())));
            };
            let prof = prof.layer(staticlib.defaults.copy()).layer(v.copy());
            let key = match Profile::from_str(k.as_str()) {
                Ok(p) => p,
                Err(e) => return Err(e),
            };
            profiles.insert(key, prof);
            assert(s.take(i + 1).drop_last() =~= s.take(i as int));
            i = i + 1;
        }
        assert(s.take(s.len() as int) =~= s);
        let version = match Version::from_str(staticlib.version.as_str()) {
            Ok(v) => v,
            Err(e) => return Err(e),
        };
        let lang = match Language::from_str(staticlib.lang.as_str()) {
            Ok(l) => l,
            Err(e) => return Err(e),
        };
        Ok(LibManifest { name: staticlib.name, version, lang, profiles })
    }

    /// What a package that builds a library provides to the packages that use it, when
    /// built by `toolchain` on `host`: its interface standard, and per profile its
    /// `include` directory, the directory its binaries go to and its defines.
    #[verifier::loop_isolation(false)]
    pub fn from_build(value: PackageManifest, toolchain: Toolchain, host: Platform) -> (res: Result<
        LibManifest,
        Error,
    >)
        ensures
            !(value.artefact is StaticLib || value.artefact is SharedLib) ==> (res matches Err(
                Error::InvalidDependency(n),
            ) && n@ == value.name@),
            (value.artefact is StaticLib || value.artefact is SharedLib) ==> (res matches Ok(m)
                && m.name@ == value.name@ && m.version == value.version && m.lang
                == value.interface && m.profiles@.dom() == value.profiles@.dom() && forall|
                k: ProfileView,
            |
                #[trigger] m.profiles@.dom().contains(k) ==> m.profiles@[k] == provided_profile(
                    value.name@,
                    value.artefact is StaticLib || value.implib,
                    lib_base(toolchain, host),
                    host,
                    k,
                    value.profiles@[k],
                )),
    {
        if !value.artefact.is_lib() {
            return Err(Error::InvalidDependency(value.name));
        }
        let PackageManifest { name, version, interface, artefact, implib, profiles: build_profiles, .. } = value;
        let libbase = if toolchain == Toolchain::system_default(host) {
            owned("bin")
        } else {
            join(host, "bin", toolchain.as_directory())
        };
        let haslib = artefact == Artefact::StaticLib || implib;
        let entries = build_profiles.into_entries();
        let ghost s = entries@;
        proof {
            assert forall|k: ProfileView| #[trigger] entries_map(s).dom().contains(k) implies exists|
                j: int,
            | 0 <= j < s.len() && s[j].0@ == k by {
                lemma_entries_dom(s, k);
            }
        }
        let mut profiles: ProfileMap<LibProfile> = ProfileMap::new();
        let mut entries = entries;
        let mut i: usize = 0;
        while i < entries.len()
            invariant
                i <= entries@.len(),
                forall|k: ProfileView| #[trigger] profiles@.dom().contains(k) <==> exists|j: int|
                    0 <= j < i && s[j].0@ == k,
                forall|j: int| 0 <= j < i ==> #[trigger] profiles@[s[j].0@] == provided_profile(
                    name@,
                    haslib,
                    libbase@,
                    host,
                    s[j].0@,
                    s[j].1@,
                ),
            decreases entries@.len() - i,
        {
            let key_name = entries[i].0.to_string();
            let key = entries[i].0.copy();
            let defines = crate::text::copy_strings(&entries[i].1.defines);
            let binaries = if haslib {
                one_string(name.as_str())
            } else {
                Vec::new()
            };
            let libdir = join(host, libbase.as_str(), key_name.as_str());
            let prof = LibProfile { include_dir: owned("include"), libdir, binaries, defines };
            assert(prof@.binaries =~= (if haslib { seq![name@] } else { Seq::empty() }));
            proof {
                assert forall|j: int| 0 <= j < i implies s[j].0@ != s[i as int].0@ by {}
            }
            profiles.insert(key, prof);
            i = i + 1;
        }
        proof {
            assert forall|k: ProfileView| #[trigger] profiles@.dom().contains(k) implies (
            entries_map(s).dom().contains(k) && profiles@[k] == provided_profile(
                name@,
                haslib,
                libbase@,
                host,
                k,
                entries_map(s)[k],
            )) by {
                let j = choose|j: int| 0 <= j < s.len() && s[j].0@ == k;
                lemma_entries_value(s, j);
            }
            assert forall|k: ProfileView| #[trigger] entries_map(s).dom().contains(k) implies profiles@.dom().contains(k) by {
                lemma_entries_dom(s, k);
            }
            assert(profiles@.dom() =~= entries_map(s).dom());
        }
        Ok(LibManifest { name, version, lang: interface, profiles })
    }

    /// Takes the profile asked for out of the manifest.
    pub fn remove(&mut self, profile: &Profile) -> (res: Result<LibProfile, Error>)
        ensures
            final(self).profiles@ == old(self).profiles@.remove(profile@),
            final(self).name == old(self).name,
            final(self).version == old(self).version,
            final(self).lang == old(self).lang,
            old(self).profiles@.dom().contains(profile@) ==> (res matches Ok(r) && r@
                == old(self).profiles@[profile@]),
            !old(self).profiles@.dom().contains(profile@) ==> (res matches Err(
                Error::ProfileUnavailable(n, q),
            ) && n@ == old(self).name@ && q@ == profile_name(profile@)) && *final(self)
                == *old(self),
    {
        match self.profiles.remove(profile) {
            Some(p) => Ok(p),
            None => Err(Error::ProfileUnavailable(owned(self.name.as_str()), profile.to_string())),
        }
    }

    /// Checks that the library's standard is no later than that of the package that
    /// uses it, handing the manifest back unchanged when it is.
    pub fn validate(self, other_name: &str, other_lang: Language) -> (res: Result<LibManifest, Error>)
        ensures
            language_le(self.lang, other_lang) ==> res == Ok::<LibManifest, Error>(self),
            !language_le(self.lang, other_lang) ==> (res matches Err(
                Error::IncompatibleCppStd(n, l, o, ol),
            ) && n@ == self.name@ && l == self.lang && o@ == other_name@ && ol == other_lang),
    {
        if self.lang > other_lang {
            Err(Error::IncompatibleCppStd(self.name, self.lang, owned(other_name), other_lang))
        } else {
            Ok(self)
        }
    }
}

} // verus!
