//! The JSON build description: a project, its standard and dependencies, and profiles
//! built on the two built in ones.
use vstd::prelude::*;
use crate::config::build::profile::pick;
use crate::config::elems::profile_name;
use crate::config::profiles::KeyMap;
use crate::config::Profile;
use crate::error::Error;
use crate::repr::{lang_spec, Lang};
use crate::text::{append_strings, copy_strings, lower_seq, one_string, opt_str, owned, str_eq, strs};

verus! {

/// A profile section as written: each field may be left out.
#[derive(Debug, Default, Clone, PartialEq, Eq)]
pub struct SerdeProfile {
    pub inherits: Option<String>,
    pub src: Option<String>,
    pub include_dirs: Option<Vec<String>>,
    pub include_pub: Option<String>,
    pub pch: Option<String>,
    pub defines: Option<Vec<String>>,
    pub compiler_options: Option<Vec<String>>,
    pub linker_options: Option<Vec<String>>,
}

pub struct SerdeProfileView {
    pub inherits: Option<Seq<char>>,
    pub src: Option<Seq<char>>,
    pub include_dirs: Option<Seq<Seq<char>>>,
    pub include_pub: Option<Seq<char>>,
    pub pch: Option<Seq<char>>,
    pub defines: Option<Seq<Seq<char>>>,
    pub compiler_options: Option<Seq<Seq<char>>>,
    pub linker_options: Option<Seq<Seq<char>>>,
}

pub open spec fn opt_strs(o: Option<Vec<String>>) -> Option<Seq<Seq<char>>> {
    match o {
        Some(v) => Some(strs(v@)),
        None => None,
    }
}

/// A list that was left out counts as empty.
pub open spec fn or_empty(o: Option<Seq<Seq<char>>>) -> Seq<Seq<char>> {
    pick(o, Seq::empty())
}

impl View for SerdeProfile {
    type V = SerdeProfileView;

    open spec fn view(&self) -> SerdeProfileView {
        SerdeProfileView {
            inherits: opt_str(self.inherits),
            src: opt_str(self.src),
            include_dirs: opt_strs(self.include_dirs),
            include_pub: opt_str(self.include_pub),
            pch: opt_str(self.pch),
            defines: opt_strs(self.defines),
            compiler_options: opt_strs(self.compiler_options),
            linker_options: opt_strs(self.linker_options),
        }
    }
}

fn copy_opt_strings(o: &Option<Vec<String>>) -> (res: Option<Vec<String>>)
    ensures
        opt_strs(res) == opt_strs(*o),
{
    match o {
        Some(v) => Some(copy_strings(v)),
        None => None,
    }
}

fn copy_opt_text(o: &Option<String>) -> (res: Option<String>)
    ensures
        opt_str(res) == opt_str(*o),
{
    match o {
        Some(s) => Some(owned(s.as_str())),
        None => None,
    }
}

impl SerdeProfile {
    /// A copy of the section.
    pub fn copy(&self) -> (res: SerdeProfile)
        ensures
            res@ == self@,
    {
        SerdeProfile {
            inherits: copy_opt_text(&self.inherits),
            src: copy_opt_text(&self.src),
            include_dirs: copy_opt_strings(&self.include_dirs),
            include_pub: copy_opt_text(&self.include_pub),
            pch: copy_opt_text(&self.pch),
            defines: copy_opt_strings(&self.defines),
            compiler_options: copy_opt_strings(&self.compiler_options),
            linker_options: copy_opt_strings(&self.linker_options),
        }
    }
}

/// A build description as written: the project's fields, its defaults, and its profile
/// sections in order.
#[derive(Debug, Clone, PartialEq, Eq)]
pub struct SerdeBuildFile {
    pub project: String,
    pub lang: String,
    pub dependencies: Vec<String>,
    pub defaults: SerdeProfile,
    pub profile: Vec<(String, SerdeProfile)>,
}

/// A resolved profile.
#[derive(Debug, Clone, PartialEq, Eq)]
pub struct BuildProfile {
    pub src: String,
    pub include_dirs: Vec<String>,
    pub include_pub: String,
    pub pch: Option<String>,
    pub defines: Vec<String>,
    pub compiler_options: Vec<String>,
    pub linker_options: Vec<String>,
}

pub struct BuildProfileView {
    pub src: Seq<char>,
    pub include_dirs: Seq<Seq<char>>,
    pub include_pub: Seq<char>,
    pub pch: Option<Seq<char>>,
    pub defines: Seq<Seq<char>>,
    pub compiler_options: Seq<Seq<char>>,
    pub linker_options: Seq<Seq<char>>,
}

impl View for BuildProfile {
    type V = BuildProfileView;

    open spec fn view(&self) -> BuildProfileView {
        BuildProfileView {
            src: self.src@,
            include_dirs: strs(self.include_dirs@),
            include_pub: self.include_pub@,
            pch: opt_str(self.pch),
            defines: strs(self.defines@),
            compiler_options: strs(self.compiler_options@),
            linker_options: strs(self.linker_options@),
        }
    }
}

/// A built in profile under the defaults: sources and public headers in `src` unless
/// set, `src` searched for headers first, and the profile's own define first.
pub open spec fn base_profile(d: SerdeProfileView, define: Seq<char>) -> BuildProfileView {
    BuildProfileView {
        src: pick(d.src, "src"@),
        include_dirs: seq!["src"@] + or_empty(d.include_dirs),
        include_pub: pick(d.include_pub, "src"@),
        pch: d.pch,
        defines: seq![define] + or_empty(d.defines),
        compiler_options: or_empty(d.compiler_options),
        linker_options: or_empty(d.linker_options),
    }
}

/// A profile with a section laid over it: the single values it sets replace, the lists
/// it sets are appended; its precompiled header is not taken.
pub open spec fn merged(b: BuildProfileView, o: SerdeProfileView) -> BuildProfileView {
    BuildProfileView {
        src: pick(o.src, b.src),
        include_dirs: b.include_dirs + or_empty(o.include_dirs),
        include_pub: pick(o.include_pub, b.include_pub),
        pch: b.pch,
        defines: b.defines + or_empty(o.defines),
        compiler_options: b.compiler_options + or_empty(o.compiler_options),
        linker_options: b.linker_options + or_empty(o.linker_options),
    }
}

fn or_copy(o: &Option<Vec<String>>) -> (res: Vec<String>)
    ensures
        strs(res@) == or_empty(opt_strs(*o)),
{
    match o {
        Some(v) => copy_strings(v),
        None => {
            let res: Vec<String> = Vec::new();
            assert(strs(res@) =~= Seq::<Seq<char>>::empty());
            res
        },
    }
}

fn or_text(o: &Option<String>, d: &str) -> (res: String)
    ensures
        res@ == pick(opt_str(*o), d@),
{
    match o {
        Some(s) => owned(s.as_str()),
        None => owned(d),
    }
}

impl BuildProfile {
    fn base(defaults: &SerdeProfile, define: &str) -> (res: BuildProfile)
        ensures
            res@ == base_profile(defaults@, define@),
    {
        let mut include_dirs = one_string("src");
        let mut more = or_copy(&defaults.include_dirs);
        append_strings(&mut include_dirs, &mut more);
        let mut defines = one_string(define);
        let mut more = or_copy(&defaults.defines);
        append_strings(&mut defines, &mut more);
        BuildProfile {
            src: or_text(&defaults.src, "src"),
            include_dirs,
            include_pub: or_text(&defaults.include_pub, "src"),
            pch: copy_opt_text(&defaults.pch),
            defines,
            compiler_options: or_copy(&defaults.compiler_options),
            linker_options: or_copy(&defaults.linker_options),
        }
    }

    /// The debug profile under the defaults, defining `VANGO_DEBUG`.
    pub fn debug(defaults: &SerdeProfile) -> (res: BuildProfile)
        ensures
            res@ == base_profile(defaults@, "VANGO_DEBUG"@),
    {
        BuildProfile::base(defaults, "VANGO_DEBUG")
    }

    /// The release profile under the defaults, defining `VANGO_RELEASE`.
    pub fn release(defaults: &SerdeProfile) -> (res: BuildProfile)
        ensures
            res@ == base_profile(defaults@, "VANGO_RELEASE"@),
    {
        BuildProfile::base(defaults, "VANGO_RELEASE")
    }

    /// This profile with the section `other` laid over it.
    pub fn merge(self, other: SerdeProfile) -> (res: BuildProfile)
        ensures
            res@ == merged(self@, other@),
    {
        let mut res = self;
        match other.src {
            Some(s) => res.src = s,
            None => {},
        }
        let mut more = or_copy(&other.include_dirs);
        append_strings(&mut res.include_dirs, &mut more);
        match other.include_pub {
            Some(s) => res.include_pub = s,
            None => {},
        }
        let mut more = or_copy(&other.defines);
        append_strings(&mut res.defines, &mut more);
        let mut more = or_copy(&other.compiler_options);
        append_strings(&mut res.compiler_options, &mut more);
        let mut more = or_copy(&other.linker_options);
        append_strings(&mut res.linker_options, &mut more);
        res
    }
}

pub open spec fn serde_sections(s: Seq<(String, SerdeProfile)>) -> Seq<(Seq<char>, SerdeProfileView)> {
    s.map_values(|e: (String, SerdeProfile)| (e.0@, e.1@))
}

/// A section is accepted when it is one of the built in profiles or names the profile
/// it inherits.
pub open spec fn serde_section_ok(k: Seq<char>, v: SerdeProfileView) -> bool {
    k == "debug"@ || k == "release"@ || v.inherits is Some
}

/// The built in profile a section builds on: its own name when it is one, else the
/// profile it inherits.
pub open spec fn base_of(k: Seq<char>, v: SerdeProfileView) -> Option<Seq<char>> {
    if k == "debug"@ || k == "release"@ {
        Some(k)
    } else {
        v.inherits
    }
}

/// The profiles of a build description: the built in ones under the defaults, each
/// laid over by its section, and each custom section that inherits a built in profile
/// laid over that profile; custom sections inheriting anything else are left out.
pub open spec fn serde_profiles(d: SerdeProfileView, s: Seq<(Seq<char>, SerdeProfileView)>) -> Map<Seq<char>, BuildProfileView>
    decreases s.len(),
{
    if s.len() == 0 {
        Map::empty().insert("debug"@, base_profile(d, "VANGO_DEBUG"@)).insert(
            "release"@,
            base_profile(d, "VANGO_RELEASE"@),
        )
    } else {
        let prev = serde_profiles(d, s.drop_last());
        let (k, v) = s.last();
        if base_of(k, v) == Some("debug"@) {
            prev.insert(k, merged(base_profile(d, "VANGO_DEBUG"@), v))
        } else if base_of(k, v) == Some("release"@) {
            prev.insert(k, merged(base_profile(d, "VANGO_RELEASE"@), v))
        } else {
            prev
        }
    }
}

/// The section at `j` is the first that is not accepted.
pub open spec fn first_bad_serde_section(s: Seq<(Seq<char>, SerdeProfileView)>, j: int) -> bool {
    &&& 0 <= j < s.len()
    &&& !serde_section_ok(s[j].0, s[j].1)
    &&& forall|i: int| 0 <= i < j ==> serde_section_ok(#[trigger] s[i].0, s[i].1)
}

/// A resolved build description.
#[derive(Debug)]
pub struct BuildFile {
    pub project: String,
    pub lang: Lang,
    pub dependencies: Vec<String>,
    pub profile: KeyMap<String, BuildProfile>,
}

impl BuildFile {
    /// Resolves a build description as written. The profile sections are checked in
    /// order, then the language standard.
    #[verifier::loop_isolation(false)]
    pub fn from_serde(file: SerdeBuildFile) -> (res: Result<BuildFile, Error>)
        ensures
            ({
                let s = serde_sections(file.profile@);
                if exists|j: int| first_bad_serde_section(s, j) {
                    res matches Err(Error::InvalidCustomProfile(k)) && exists|j: int|
                        first_bad_serde_section(s, j) && k@ == s[j].0
                } else if lang_spec(file.lang@) is None {
                    res matches Err(Error::InvalidCppStd(m)) && m@ == lower_seq(file.lang@)
                } else {
                    res matches Ok(b) && b.project@ == file.project@ && b.lang == lang_spec(
                        file.lang@,
                    ).unwrap() && strs(b.dependencies@) == strs(file.dependencies@)
                        && b.profile@ == serde_profiles(file.defaults@, s)
                }
            }),
    {
        let ghost s = serde_sections(file.profile@);
        let SerdeBuildFile { project, lang, dependencies, defaults, profile } = file;
        let mut profiles: KeyMap<String, BuildProfile> = KeyMap::new();
        profiles.insert(owned("debug"), BuildProfile::debug(&defaults));
        profiles.insert(owned("release"), BuildProfile::release(&defaults));
        let mut i: usize = 0;
        assert(s.take(0) =~= Seq::<(Seq<char>, SerdeProfileView)>::empty());
        while i < profile.len()
            invariant
                s == serde_sections(profile@),
                i <= profile@.len(),
                forall|j: int| 0 <= j < i ==> serde_section_ok(#[trigger] s[j].0, s[j].1),
                profiles@ == serde_profiles(defaults@, s.take(i as int)),
            decreases profile@.len() - i,
        {
            let (k, v) = &profile[i];
            assert(s[i as int] == (k@, v@));
            assert(s.take(i + 1).drop_last() =~= s.take(i as int));
            assert(s.take(i + 1).last() == s[i as int]);
            let base: Option<&str> = if str_eq(k.as_str(), "debug") || str_eq(k.as_str(), "release") {
                Some(k.as_str())
            } else {
                match &v.inherits {
                    Some(b) => Some(b.as_str()),
                    None => None,
                }
            };
            let is_debug = match base {
                Some(b) => str_eq(b, "debug"),
                None => false,
            };
            let is_release = match base {
                Some(b) => str_eq(b, "release"),
                None => false,
            };
            if is_debug {
                profiles.insert(owned(k.as_str()), BuildProfile::debug(&defaults).merge(v.copy()));
            } else if is_release {
                profiles.insert(owned(k.as_str()), BuildProfile::release(&defaults).merge(v.copy()));
            } else if v.inherits.is_none() {
                proof {
                    assert(first_bad_serde_section(s, i as int));
                }
                return Err(Error::InvalidCustomProfile(owned(k.as_str())));
            }
            i = i + 1;
        }
        assert(s.take(s.len() as int) =~= s);
        assert(!exists|j: int| first_bad_serde_section(s, j));
        let lang = match Lang::try_from(lang.as_str()) {
            Ok(l) => l,
            Err(e) => return Err(e),
        };
        Ok(BuildFile { project, lang, dependencies, profile: profiles })
    }

    /// Takes the profile asked for out of the description.
    pub fn take(&mut self, profile: &Profile) -> (res: Result<BuildProfile, Error>)
        ensures
            final(self).profile@ == old(self).profile@.remove(profile_name(profile@)),
            final(self).project == old(self).project,
            final(self).lang == old(self).lang,
            old(self).profile@.dom().contains(profile_name(profile@)) ==> (res matches Ok(r)
                && r@ == old(self).profile@[profile_name(profile@)]),
            !old(self).profile@.dom().contains(profile_name(profile@)) ==> (res matches Err(
                Error::ProfileUnavailable(n, q),
            ) && n@ == old(self).project@ && q@ == profile_name(profile@)),
    {
        let key = profile.to_string();
        match self.profile.remove(&key) {
            Some(p) => Ok(p),
            None => Err(Error::ProfileUnavailable(owned(self.project.as_str()), key)),
        }
    }
}

} // verus!
