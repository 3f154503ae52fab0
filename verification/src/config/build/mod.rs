//! The manifest of a package to build: what it is, what it depends on, and the profiles
//! it can be built with.
pub mod profile;
pub mod raw;

use vstd::prelude::*;
use crate::config::elems::{language_spec, profile_from_name, profile_name, version_spec};
use crate::config::profiles::ProfileMap;
use crate::config::{Artefact, Language, Platform, Profile, ProfileView, Version};
use crate::error::Error;
use crate::exec::Toolchain;
use crate::text::{copy_strings, lower_seq, opt_str, owned, str_eq, strs};
use profile::{debug_profile, layered, pick, release_profile};

pub use crate::config::{Runtime, VcpkgConfig, WarnLevel};

verus! {

/// Where a dependency comes from.
#[derive(Debug, Clone, PartialEq, Eq)]
pub enum Dependency {
    Package { src: String, targets: Vec<String>, features: Vec<String> },
    Headers { headers: String, features: Vec<String> },
    Git { git: String, tag: Option<String>, features: Vec<String> },
    System { system: String },
}

/// The settings a resolved profile builds with.
#[derive(Debug, Clone, Copy, PartialEq, Eq, Structural)]
pub struct BuildSettings {
    pub opt_level: u32,
    pub opt_size: bool,
    pub opt_speed: bool,
    pub opt_linktime: bool,
    pub iso_compliant: bool,
    pub warn_level: WarnLevel,
    pub warn_as_error: bool,
    pub debug_info: bool,
    pub runtime: Runtime,
    pub aslr: bool,
    pub no_rtti: bool,
    pub no_except: bool,
    pub pthreads: bool,
    pub asan: bool,
    pub tsan: bool,
    pub lsan: bool,
    pub ubsan: bool,
}

/// A resolved profile: the built in profile it rests on, and everything it sets.
#[derive(Debug, Clone, PartialEq, Eq)]
pub struct BuildProfile {
    pub baseprof: Profile,
    pub defines: Vec<String>,
    pub include_dirs: Vec<String>,
    pub pch: Option<String>,
    pub settings: BuildSettings,
    pub compiler_options: Vec<String>,
    pub linker_options: Vec<String>,
}

pub struct BuildProfileView {
    pub baseprof: ProfileView,
    pub defines: Seq<Seq<char>>,
    pub include_dirs: Seq<Seq<char>>,
    pub pch: Option<Seq<char>>,
    pub settings: BuildSettings,
    pub compiler_options: Seq<Seq<char>>,
    pub linker_options: Seq<Seq<char>>,
}

impl View for BuildProfile {
    type V = BuildProfileView;

    open spec fn view(&self) -> BuildProfileView {
        BuildProfileView {
            baseprof: self.baseprof@,
            defines: strs(self.defines@),
            include_dirs: strs(self.include_dirs@),
            pch: opt_str(self.pch),
            settings: self.settings,
            compiler_options: strs(self.compiler_options@),
            linker_options: strs(self.linker_options@),
        }
    }
}

impl raw::BuildProfile {
    pub fn copy(&self) -> (res: raw::BuildProfile)
        ensures
            res@ == self@,
    {
        raw::BuildProfile {
            inherits: match &self.inherits {
                Some(s) => Some(owned(s.as_str())),
                None => None,
            },
            defines: copy_strings(&self.defines),
            include_dirs: copy_strings(&self.include_dirs),
            pch: match &self.pch {
                Some(s) => Some(owned(s.as_str())),
                None => None,
            },
            build_settings: self.build_settings,
            compiler_options: copy_strings(&self.compiler_options),
            linker_options: copy_strings(&self.linker_options),
        }
    }
}

/// A package manifest, resolved: every profile it can be built with, the two built in
/// ones always among them.
#[derive(Debug)]
pub struct PackageManifest {
    pub name: String,
    pub version: Version,
    pub lang: Language,
    pub artefact: Artefact,
    pub implib: bool,
    pub toolchain: Option<Toolchain>,
    pub interface: Language,
    pub runtime: Option<String>,
    pub vcpkg: VcpkgConfig,
    pub dependencies: Vec<(String, Dependency)>,
    pub profiles: ProfileMap<BuildProfile>,
}

/// The profile a section builds on: the one it inherits, else the one it is named.
pub open spec fn section_base(k: Seq<char>, v: raw::BuildProfileView) -> Seq<char> {
    pick(v.inherits, k)
}

/// A section can only build on one of the two built in profiles.
pub open spec fn section_ok(k: Seq<char>, v: raw::BuildProfileView) -> bool {
    section_base(k, v) == "debug"@ || section_base(k, v) == "release"@
}

/// The profile a section named `k` resolves to: its base, then the package defaults,
/// then the section itself.
pub open spec fn section_profile(defaults: raw::BuildProfileView, k: Seq<char>, v: raw::BuildProfileView) -> BuildProfileView {
    let base = if section_base(k, v) == "debug"@ {
        debug_profile()
    } else {
        release_profile()
    };
    layered(layered(base, defaults), v)
}

pub open spec fn sections_view(s: Seq<(String, raw::BuildProfile)>) -> Seq<(Seq<char>, raw::BuildProfileView)> {
    s.map_values(|e: (String, raw::BuildProfile)| (e.0@, e.1@))
}

/// The profiles of a manifest: the two built in ones under the package defaults, then
/// each section in order, a later one replacing an earlier one of the same name.
pub open spec fn profiles_spec(defaults: raw::BuildProfileView, s: Seq<(Seq<char>, raw::BuildProfileView)>) -> Map<ProfileView, BuildProfileView>
    decreases s.len(),
{
    if s.len() == 0 {
        Map::empty().insert(ProfileView::Debug, layered(debug_profile(), defaults)).insert(
            ProfileView::Release,
            layered(release_profile(), defaults),
        )
    } else {
        profiles_spec(defaults, s.drop_last()).insert(
            profile_from_name(s.last().0),
            section_profile(defaults, s.last().0, s.last().1),
        )
    }
}

/// Every manifest holds the two built in profiles.
pub proof fn law_profiles_hold_builtins(defaults: raw::BuildProfileView, s: Seq<(Seq<char>, raw::BuildProfileView)>)
    ensures
        profiles_spec(defaults, s).dom().contains(ProfileView::Debug),
        profiles_spec(defaults, s).dom().contains(ProfileView::Release),
    decreases s.len(),
{
    if s.len() > 0 {
        law_profiles_hold_builtins(defaults, s.drop_last());
    }
}

/// Every profile of a manifest builds on a built in one: it searches `src` for headers
/// first, and its first define is `VANGO_DEBUG` or `VANGO_RELEASE`.
pub proof fn law_profiles_build_on_builtins(defaults: raw::BuildProfileView, s: Seq<(Seq<char>, raw::BuildProfileView)>, p: ProfileView)
    requires
        profiles_spec(defaults, s).dom().contains(p),
    ensures
        profiles_spec(defaults, s)[p].include_dirs.len() > 0,
        profiles_spec(defaults, s)[p].include_dirs[0] == "src"@,
        profiles_spec(defaults, s)[p].defines.len() > 0,
        profiles_spec(defaults, s)[p].defines[0] == "VANGO_DEBUG"@
            || profiles_spec(defaults, s)[p].defines[0] == "VANGO_RELEASE"@,
    decreases s.len(),
{
    if s.len() > 0 && profile_from_name(s.last().0) != p {
        law_profiles_build_on_builtins(defaults, s.drop_last(), p);
    }
}

/// The `debug` profile defines `VANGO_DEBUG` first and the `release` profile
/// `VANGO_RELEASE`, unless a section of that name is re-based on the other.
pub proof fn law_builtin_profiles_define_their_name(defaults: raw::BuildProfileView, s: Seq<(Seq<char>, raw::BuildProfileView)>)
    requires
        forall|j: int|
            0 <= j < s.len() && (#[trigger] s[j]).0 == "debug"@ ==> section_base(s[j].0, s[j].1)
                == "debug"@,
        forall|j: int|
            0 <= j < s.len() && (#[trigger] s[j]).0 == "release"@ ==> section_base(s[j].0, s[j].1)
                == "release"@,
    ensures
        profiles_spec(defaults, s)[ProfileView::Debug].defines[0] == "VANGO_DEBUG"@,
        profiles_spec(defaults, s)[ProfileView::Release].defines[0] == "VANGO_RELEASE"@,
    decreases s.len(),
{
    if s.len() > 0 {
        let t = s.drop_last();
        assert forall|j: int| 0 <= j < t.len() && (#[trigger] t[j]).0 == "debug"@ implies section_base(
            t[j].0,
            t[j].1,
        ) == "debug"@ by {
            assert(t[j] == s[j]);
        }
        assert forall|j: int| 0 <= j < t.len() && (#[trigger] t[j]).0 == "release"@ implies section_base(
            t[j].0,
            t[j].1,
        ) == "release"@ by {
            assert(t[j] == s[j]);
        }
        law_builtin_profiles_define_their_name(defaults, t);
        assert(s[s.len() - 1] == s.last());
    }
}

/// The section at `j` is the first whose base is not a built in profile.
pub open spec fn first_bad_section(s: Seq<(Seq<char>, raw::BuildProfileView)>, j: int) -> bool {
    &&& 0 <= j < s.len()
    &&& !section_ok(s[j].0, s[j].1)
    &&& forall|i: int| 0 <= i < j ==> section_ok(#[trigger] s[i].0, s[i].1)
}

pub open spec fn all_sections_ok(s: Seq<(Seq<char>, raw::BuildProfileView)>) -> bool {
    forall|i: int| 0 <= i < s.len() ==> section_ok(#[trigger] s[i].0, s[i].1)
}

/// The fields a resolved manifest takes over from the manifest as written.
pub open spec fn manifest_matches(m: PackageManifest, value: raw::BuildFile, host: Platform) -> bool {
    let p = value.package;
    let artefact = pick(p.artefact, Artefact::Executable);
    let lang = language_spec(p.lang@).unwrap();
    &&& m.name@ == p.name@
    &&& m.version == version_spec(p.version@).unwrap()
    &&& m.lang == lang
    &&& m.interface == (match p.interface {
        Some(i) => language_spec(i@).unwrap(),
        None => lang,
    })
    &&& m.artefact == artefact
    &&& m.implib == (artefact == Artefact::SharedLib && host == Platform::Windows)
    &&& m.toolchain == p.toolchain
    &&& opt_str(m.runtime) == opt_str(p.runtime)
    &&& m.vcpkg.triplet@ == (match value.vcpkg {
        Some(v) => v.triplet@,
        None => "x64-linux"@,
    })
    &&& m.dependencies == value.dependencies
    &&& m.profiles@ == profiles_spec(p.defaults@, sections_view(value.profile@))
}

impl PackageManifest {
    /// Resolves a manifest as written, on `host`. The language standards are checked
    /// first, then the profile sections in order, then the version.
    #[verifier::loop_isolation(false)]
    pub fn try_from(value: raw::BuildFile, host: Platform) -> (res: Result<PackageManifest, Error>)
        ensures
            ({
                let p = value.package;
                let s = sections_view(value.profile@);
                if language_spec(p.lang@) is None {
                    res matches Err(Error::InvalidCppStd(m)) && m@ == lower_seq(p.lang@)
                } else if p.interface matches Some(i) && language_spec(i@) is None {
                    res matches Err(Error::InvalidCppStd(m)) && m@ == lower_seq(p.interface->Some_0@)
                } else if !all_sections_ok(s) {
                    res matches Err(Error::InvalidCustomProfile(k)) && exists|j: int|
                        first_bad_section(s, j) && k@ == s[j].0
                } else if version_spec(p.version@) is None {
                    res matches Err(Error::MimicTomlSemver(m)) && m@ == p.version@
                } else {
                    res matches Ok(m) && manifest_matches(m, value, host)
                }
            }),
    {
        let ghost s = sections_view(value.profile@);
        let raw::BuildFile { package, vcpkg, dependencies, profile } = value;
        let lang = match Language::from_str(package.lang.as_str()) {
            Ok(l) => l,
            Err(e) => return Err(e),
        };
        let interface = match &package.interface {
            Some(i) => match Language::from_str(i.as_str()) {
                Ok(l) => l,
                Err(e) => return Err(e),
            },
            None => lang,
        };
        let artefact = match package.artefact {
            Some(a) => a,
            None => Artefact::Executable,
        };
        let implib = artefact == Artefact::SharedLib && host == Platform::Windows;
        let mut profiles: ProfileMap<BuildProfile> = ProfileMap::new();
        profiles.insert(Profile::Debug, BuildProfile::default_debug().layer(package.defaults.copy()));
        profiles.insert(
            Profile::Release,
            BuildProfile::default_release().layer(package.defaults.copy()),
        );
        let mut i: usize = 0;
        assert(s.take(0) =~= Seq::<(Seq<char>, raw::BuildProfileView)>::empty());
        while i < profile.len()
            invariant
                s == sections_view(profile@),
                i <= profile@.len(),
                forall|j: int| 0 <= j < i ==> section_ok(#[trigger] s[j].0, s[j].1),
                profiles@ == profiles_spec(package.defaults@, s.take(i as int)),
            decreases profile@.len() - i,
        {
            let (k, v) = &profile[i];
            assert(s[i as int] == (k@, v@));
            let base = match &v.inherits {
                Some(b) => b.as_str(),
                None => k.as_str(),
            };
            let prof = if str_eq(base, "debug") {
                BuildProfile::default_debug()
            } else if str_eq(base, "release") {
                BuildProfile::default_release()
            } else {
                proof {
                    assert(first_bad_section(s, i as int));
                }
                return Err(Error::InvalidCustomProfile(owned(k.as_str())));
            };
            let prof = prof.layer(package.defaults.copy()).layer(v.copy());
            let key = match Profile::from_str(k.as_str()) {
                Ok(p) => p,
                Err(e) => return Err(e),
            };
            profiles.insert(key, prof);
            assert(s.take(i + 1).drop_last() =~= s.take(i as int));
            i = i + 1;
        }
        assert(s.take(s.len() as int) =~= s);
        let version = match Version::from_str(package.version.as_str()) {
            Ok(v) => v,
            Err(e) => return Err(e),
        };
        let vcpkg = match vcpkg {
            Some(v) => v,
            None => VcpkgConfig { triplet: owned("x64-linux") },
        };
        Ok(PackageManifest {
            name: package.name,
            version,
            lang,
            artefact,
            implib,
            toolchain: package.toolchain,
            interface,
            runtime: package.runtime,
            vcpkg,
            dependencies,
            profiles,
        })
    }

    /// The profile asked for, if the manifest has it.
    pub fn get(&self, profile: &Profile) -> (res: Result<&BuildProfile, Error>)
        ensures
            self.profiles@.dom().contains(profile@) ==> (res matches Ok(r) && r@
                == self.profiles@[profile@]),
            !self.profiles@.dom().contains(profile@) ==> (res matches Err(
                Error::ProfileUnavailable(n, q),
            ) && n@ == self.name@ && q@ == profile_name(profile@)),
    {
        match self.profiles.get(profile) {
            Some(p) => Ok(p),
            None => Err(Error::ProfileUnavailable(owned(self.name.as_str()), profile.to_string())),
        }
    }

    /// Takes the profile asked for out of the manifest.
    pub fn remove(&mut self, profile: &Profile) -> (res: Result<BuildProfile, Error>)
        ensures
            final(self).profiles@ == old(self).profiles@.remove(profile@),
            final(self).name == old(self).name,
            final(self).version == old(self).version,
            final(self).lang == old(self).lang,
            final(self).artefact == old(self).artefact,
            final(self).implib == old(self).implib,
            final(self).toolchain == old(self).toolchain,
            final(self).interface == old(self).interface,
            final(self).runtime == old(self).runtime,
            final(self).vcpkg == old(self).vcpkg,
            final(self).dependencies == old(self).dependencies,
            old(self).profiles@.dom().contains(profile@) ==> (res matches Ok(r) && r@
                == old(self).profiles@[profile@]),
            !old(self).profiles@.dom().contains(profile@) ==> (res matches Err(
                Error::ProfileUnavailable(n, q),
            ) && n@ == old(self).name@ && q@ == profile_name(profile@)) && *final(self)
                == *old(self),
    {
        match self.profiles.remove(profile) {
            Some(p) => Ok(p),
            None => Err(Error::ProfileUnavailable(owned(self.name.as_str()), profile.to_string())),
        }
    }
}

} // verus!
