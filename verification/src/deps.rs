//! Gathering what a package's dependencies contribute to its build: header and library
//! directories, libraries to link, files whose change forces a relink, and defines.
use vstd::prelude::*;
use crate::cli::{BuildSwitches, SwitchesView};
use crate::config::build::Dependency;
use crate::config::lib::LibProfile;
use crate::config::order::language_le;
use crate::config::{Language, Platform, Profile, ProfileView};
use crate::error::Error;
use crate::exec::toolchain::msvc_compatible;
use crate::exec::Toolchain;
use crate::paths::{
    file_stem, join, last_component, names_file, path_join, path_with_ext, stem_of, with_extension,
};
use crate::text::{concat, has_prefix, lower_seq, opt_str, owned, starts_with, strs, to_ascii_lowercase};

verus! {

/// What the dependencies of a package add to its build.
#[derive(Debug, Clone)]
pub struct Dependencies {
    pub incdirs: Vec<String>,
    pub libdirs: Vec<String>,
    pub rpaths: Vec<String>,
    pub archives: Vec<String>,
    pub relink: Vec<String>,
    pub defines: Vec<String>,
}

pub struct DependenciesView {
    pub incdirs: Seq<Seq<char>>,
    pub libdirs: Seq<Seq<char>>,
    pub rpaths: Seq<Seq<char>>,
    pub archives: Seq<Seq<char>>,
    pub relink: Seq<Seq<char>>,
    pub defines: Seq<Seq<char>>,
}

impl View for Dependencies {
    type V = DependenciesView;

    open spec fn view(&self) -> DependenciesView {
        DependenciesView {
            incdirs: strs(self.incdirs@),
            libdirs: strs(self.libdirs@),
            rpaths: strs(self.rpaths@),
            archives: strs(self.archives@),
            relink: strs(self.relink@),
            defines: strs(self.defines@),
        }
    }
}

impl Default for Dependencies {
    fn default() -> (res: Dependencies)
        ensures
            res@.incdirs.len() == 0,
            res@.libdirs.len() == 0,
            res@.rpaths.len() == 0,
            res@.archives.len() == 0,
            res@.relink.len() == 0,
            res@.defines.len() == 0,
    {
        Dependencies {
            incdirs: Vec::new(),
            libdirs: Vec::new(),
            rpaths: Vec::new(),
            archives: Vec::new(),
            relink: Vec::new(),
            defines: Vec::new(),
        }
    }
}

/// How a toolchain names a library to link: MSVC-style linkers take the `.lib` file.
pub open spec fn link_name(tc: Toolchain, lib: Seq<char>, host: Platform) -> Seq<char> {
    if msvc_compatible(tc) { path_with_ext(host, lib, "lib"@) } else { lib }
}

/// The file a library built from source leaves in `dir`, which forces a relink when it
/// changes.
pub open spec fn built_lib(tc: Toolchain, dir: Seq<char>, lib: Seq<char>, host: Platform) -> Seq<char> {
    if msvc_compatible(tc) {
        path_with_ext(host, path_join(host, dir, lib), "lib"@)
    } else {
        path_with_ext(host, path_join(host, dir, "lib"@ + lib), "a"@)
    }
}

/// The defines that are not the tool's own (`VANGO_...`), in order.
pub open spec fn foreign_defines(s: Seq<Seq<char>>) -> Seq<Seq<char>>
    decreases s.len(),
{
    if s.len() == 0 {
        Seq::empty()
    } else {
        let r = foreign_defines(s.drop_last());
        if has_prefix(s.last(), "VANGO_"@) {
            r
        } else {
            r.push(s.last())
        }
    }
}

/// No define of the tool's own (`VANGO_...`) passes from a dependency to the package
/// using it, and every other define of the dependency does.
pub proof fn law_no_tool_defines_propagate(s: Seq<Seq<char>>)
    ensures
        forall|k: int|
            0 <= k < foreign_defines(s).len() ==> !has_prefix(#[trigger] foreign_defines(s)[k], "VANGO_"@),
        forall|k: int|
            0 <= k < s.len() && !has_prefix(#[trigger] s[k], "VANGO_"@) ==> foreign_defines(s).contains(s[k]),
    decreases s.len(),
{
    if s.len() > 0 {
        let t = s.drop_last();
        law_no_tool_defines_propagate(t);
        let r = foreign_defines(t);
        assert forall|k: int| 0 <= k < s.len() && !has_prefix(#[trigger] s[k], "VANGO_"@) implies foreign_defines(
            s,
        ).contains(s[k]) by {
            if k < s.len() - 1 {
                assert(s[k] == t[k]);
                let j = choose|j: int| 0 <= j < r.len() && r[j] == t[k];
                if !has_prefix(s.last(), "VANGO_"@) {
                    assert(foreign_defines(s)[j] == r.push(s.last())[j]);
                }
                assert(foreign_defines(s)[j] == s[k]);
            } else {
                assert(foreign_defines(s)[r.len() as int] == s.last());
            }
        }
    }
}

/// What one dependency's library profile adds: its header and library directories below
/// its root, its binaries to link (and, when built from source, to watch), and its
/// defines but for the tool's own.
pub open spec fn absorbed(d: DependenciesView, root: Seq<char>, p: crate::config::lib::LibProfileView, srcpkg: bool, tc: Toolchain, host: Platform) -> DependenciesView {
    let dir = path_join(host, root, p.libdir);
    DependenciesView {
        incdirs: d.incdirs.push(path_join(host, root, p.include_dir)),
        libdirs: d.libdirs.push(dir),
        rpaths: d.rpaths,
        archives: d.archives + p.binaries.map_values(|l: Seq<char>| link_name(tc, l, host)),
        relink: d.relink + (if srcpkg {
            p.binaries.map_values(|l: Seq<char>| built_lib(tc, dir, l, host))
        } else {
            Seq::empty()
        }),
        defines: d.defines + foreign_defines(p.defines),
    }
}

fn push_str(v: &mut Vec<String>, s: String)
    ensures
        strs(final(v)@) == strs(old(v)@).push(s@),
{
    let ghost before = v@;
    let ghost t = s@;
    v.push(s);
    assert(strs(v@) =~= strs(before).push(t));
}

impl Dependencies {
    /// A system library, linked by name.
    pub fn add_system(&mut self, system: &str, toolchain: Toolchain, host: Platform)
        ensures
            final(self)@ == (DependenciesView {
                archives: old(self)@.archives.push(link_name(toolchain, system@, host)),
                ..old(self)@
            }),
    {
        let name = if toolchain.is_msvc_compatible() {
            with_extension(host, system, "lib")
        } else {
            owned(system)
        };
        push_str(&mut self.archives, name);
    }

    /// The libraries a package names as its targets.
    pub fn add_targets(&mut self, targets: &Vec<String>, toolchain: Toolchain, host: Platform)
        ensures
            final(self)@ == (DependenciesView {
                archives: old(self)@.archives + strs(targets@).map_values(
                    |l: Seq<char>| link_name(toolchain, l, host),
                ),
                ..old(self)@
            }),
    {
        let ghost a0 = self@.archives;
        let ghost ts = strs(targets@);
        let mut k: usize = 0;
        while k < targets.len()
            invariant
                k <= targets@.len(),
                ts == strs(targets@),
                self@ == (DependenciesView {
                    archives: a0 + ts.take(k as int).map_values(
                        |l: Seq<char>| link_name(toolchain, l, host),
                    ),
                    ..old(self)@
                }),
            decreases targets@.len() - k,
        {
            let t = targets[k].as_str();
            assert(ts[k as int] == t@);
            self.add_system(t, toolchain, host);
            assert(ts.take(k + 1).map_values(|l: Seq<char>| link_name(toolchain, l, host)) =~= ts.take(
                k as int,
            ).map_values(|l: Seq<char>| link_name(toolchain, l, host)).push(link_name(toolchain, t@, host)));
            k = k + 1;
        }
        assert(ts.take(targets@.len() as int) =~= ts);
    }

    /// A directory of headers.
    pub fn add_headers(&mut self, dir: &str)
        ensures
            final(self)@ == (DependenciesView { incdirs: old(self)@.incdirs.push(dir@), ..old(self)@ }),
    {
        push_str(&mut self.incdirs, owned(dir));
    }

    /// The directories of the packages vcpkg installs for `triplet`.
    pub fn add_vcpkg(&mut self, triplet: &str)
        ensures
            final(self)@ == (DependenciesView {
                incdirs: old(self)@.incdirs.push("bin/vcpkg_installed/"@ + triplet@ + "/include"@),
                libdirs: old(self)@.libdirs.push("bin/vcpkg_installed/"@ + triplet@ + "/lib"@),
                rpaths: old(self)@.rpaths.push("bin/vcpkg_installed/"@ + triplet@ + "/lib"@),
                ..old(self)@
            }),
    {
        push_str(&mut self.incdirs, crate::text::concat3("bin/vcpkg_installed/", triplet, "/include"));
        push_str(&mut self.libdirs, crate::text::concat3("bin/vcpkg_installed/", triplet, "/lib"));
        push_str(&mut self.rpaths, crate::text::concat3("bin/vcpkg_installed/", triplet, "/lib"));
    }

    /// Takes in one dependency, rooted at `root`, by the library profile it provides.
    pub fn absorb(&mut self, root: &str, profile: LibProfile, srcpkg: bool, toolchain: Toolchain, host: Platform)
        ensures
            final(self)@ == absorbed(old(self)@, root@, profile@, srcpkg, toolchain, host),
    {
        let msvc = toolchain.is_msvc_compatible();
        push_str(&mut self.incdirs, join(host, root, profile.include_dir.as_str()));
        let dir = join(host, root, profile.libdir.as_str());
        push_str(&mut self.libdirs, owned(dir.as_str()));
        let ghost bins = strs(profile.binaries@);
        let ghost a0 = strs(self.archives@);
        let ghost r0 = strs(self.relink@);
        let ghost i1 = strs(self.incdirs@);
        let ghost l1 = strs(self.libdirs@);
        let ghost p1 = strs(self.rpaths@);
        let ghost d1 = strs(self.defines@);
        let mut k: usize = 0;
        while k < profile.binaries.len()
            invariant
                k <= profile.binaries@.len(),
                strs(self.incdirs@) == i1,
                strs(self.libdirs@) == l1,
                strs(self.rpaths@) == p1,
                strs(self.defines@) == d1,
                bins == strs(profile.binaries@),
                msvc == msvc_compatible(toolchain),
                strs(self.archives@) == a0 + bins.take(k as int).map_values(
                    |l: Seq<char>| link_name(toolchain, l, host),
                ),
                strs(self.relink@) == r0 + (if srcpkg {
                    bins.take(k as int).map_values(|l: Seq<char>| built_lib(toolchain, dir@, l, host))
                } else {
                    Seq::empty()
                }),
            decreases profile.binaries@.len() - k,
        {
            let l = profile.binaries[k].as_str();
            assert(bins[k as int] == l@);
            let ghost ra = strs(self.relink@);
            if srcpkg {
                let f = if msvc {
                    let p = join(host, dir.as_str(), l);
                    with_extension(host, p.as_str(), "lib")
                } else {
                    let n = concat("lib", l);
                    let p = join(host, dir.as_str(), n.as_str());
                    with_extension(host, p.as_str(), "a")
                };
                push_str(&mut self.relink, f);
            }
            let a = if msvc {
                with_extension(host, l, "lib")
            } else {
                owned(l)
            };
            push_str(&mut self.archives, a);
            assert(bins.take(k + 1).map_values(|l: Seq<char>| link_name(toolchain, l, host)) =~= bins.take(
                k as int,
            ).map_values(|l: Seq<char>| link_name(toolchain, l, host)).push(link_name(toolchain, l@, host)));
            assert(bins.take(k + 1).map_values(|l: Seq<char>| built_lib(toolchain, dir@, l, host))
                =~= bins.take(k as int).map_values(|l: Seq<char>| built_lib(toolchain, dir@, l, host)).push(
                built_lib(toolchain, dir@, l@, host),
            ));
            k = k + 1;
        }
        assert(bins.take(profile.binaries@.len() as int) =~= bins);
        let ghost d0 = strs(self.defines@);
        let ghost defs = strs(profile.defines@);
        let ghost a2 = strs(self.archives@);
        let ghost r2 = strs(self.relink@);
        let mut k: usize = 0;
        assert(defs.take(0) =~= Seq::<Seq<char>>::empty());
        while k < profile.defines.len()
            invariant
                k <= profile.defines@.len(),
                strs(self.incdirs@) == i1,
                strs(self.libdirs@) == l1,
                strs(self.rpaths@) == p1,
                strs(self.archives@) == a2,
                strs(self.relink@) == r2,
                defs == strs(profile.defines@),
                strs(self.defines@) == d0 + foreign_defines(defs.take(k as int)),
            decreases profile.defines@.len() - k,
        {
            let d = profile.defines[k].as_str();
            assert(defs[k as int] == d@);
            assert(defs.take(k + 1).drop_last() =~= defs.take(k as int));
            if !starts_with(d, "VANGO_") {
                let ghost before = strs(self.defines@);
                push_str(&mut self.defines, owned(d));
                assert(strs(self.defines@) =~= d0 + foreign_defines(defs.take(k + 1)));
            }
            k = k + 1;
        }
        assert(defs.take(profile.defines@.len() as int) =~= defs);
    }
}

/// Dependencies are built with the profile the package's profile rests on when a
/// custom profile is asked for; the other switches are kept.
pub open spec fn forwarded(s: SwitchesView, base: ProfileView) -> SwitchesView {
    if s.profile is Custom {
        SwitchesView { profile: base, ..s }
    } else {
        s
    }
}

pub fn forward_switches(switches: &BuildSwitches, base: &Profile) -> (res: BuildSwitches)
    ensures
        res@ == forwarded(switches@, base@),
{
    let profile = match &switches.profile {
        Profile::Custom(_) => base.copy(),
        p => p.copy(),
    };
    BuildSwitches {
        profile,
        toolchain: switches.toolchain,
        install: switches.install,
        echo: switches.echo,
        verbose: switches.verbose,
        is_test: switches.is_test,
    }
}

/// The toolchain to build with: the one asked for on the command line, else the one the
/// manifest names, else the user's default.
pub fn select_toolchain(asked: Option<Toolchain>, manifest: Option<Toolchain>, user: Toolchain) -> (res: Toolchain)
    ensures
        res == (match asked {
            Some(t) => t,
            None => match manifest {
                Some(t) => t,
                None => user,
            },
        }),
{
    match asked {
        Some(t) => t,
        None => match manifest {
            Some(t) => t,
            None => user,
        },
    }
}

/// The standard of a package's interface must be no later than that of the package
/// using it.
pub fn check_interface(dep_name: &str, dep_iface: Language, name: &str, lang: Language) -> (res: Result<(), Error>)
    ensures
        language_le(dep_iface, lang) ==> res is Ok,
        !language_le(dep_iface, lang) ==> (res matches Err(Error::IncompatibleCppStd(a, b, c, d))
            && a@ == dep_name@ && b == dep_iface && c@ == name@ && d == lang),
{
    if dep_iface > lang {
        Err(Error::IncompatibleCppStd(owned(dep_name), dep_iface, owned(name), lang))
    } else {
        Ok(())
    }
}

/// The name vcpkg knows a package by: its name in lower case.
pub fn vcpkg_name(name: &str) -> (res: String)
    ensures
        res@ == lower_seq(name@),
{
    to_ascii_lowercase(name)
}

/// A package that vcpkg provides, and the features asked of it.
#[derive(Debug, Clone, PartialEq, Eq)]
pub struct VcpkgDependency {
    pub name: String,
    pub features: Vec<String>,
}

/// The vcpkg entry of the dependency `name`: vcpkg's name for it, and its features.
pub fn vcpkg_dependency(name: &str, features: &Vec<String>) -> (res: VcpkgDependency)
    ensures
        res.name@ == lower_seq(name@),
        strs(res.features@) == strs(features@),
{
    VcpkgDependency { name: vcpkg_name(name), features: crate::text::copy_strings(features) }
}

/// Where a dependency that is a package lives: a local directory, or the directory a
/// repository is cloned into.
#[derive(Debug, Clone, PartialEq, Eq)]
pub enum DepRoot {
    Local(String),
    Cloned { path: String, url: String, tag: Option<String> },
}

/// Whether `dep` is a repository whose address names no package.
pub open spec fn unnamed_repository(dep: Dependency, host: Platform) -> bool {
    match dep {
        Dependency::Git { git, .. } => !names_file(git@, host),
        _ => false,
    }
}

/// What one dependency asks for. vcpkg packages are listed for vcpkg and their targets
/// linked; header directories and system libraries are added at once; the others are
/// packages whose root is handed back: a local directory, or the directory below `home`
/// a repository is cloned into.
pub fn resolve_dependency(
    deps: &mut Dependencies,
    vcpkg: &mut Vec<VcpkgDependency>,
    name: &str,
    dep: &Dependency,
    toolchain: Toolchain,
    home: &str,
    host: Platform,
) -> (res: Option<DepRoot>)
    requires
        !unnamed_repository(*dep, host),
    ensures
        match *dep {
            Dependency::Git { git, tag, .. } => {
                &&& final(deps)@ == old(deps)@
                &&& final(vcpkg)@ == old(vcpkg)@
                &&& res matches Some(DepRoot::Cloned { path, url, tag: t }) && path@
                    == package_dir_spec(home@, git@, host) && url@ == git@ && opt_str(t)
                    == opt_str(tag)
            },
            Dependency::Package { src, targets, features } => if src@ == "vcpkg"@ {
                &&& res is None
                &&& final(deps)@ == (DependenciesView {
                    archives: old(deps)@.archives + strs(targets@).map_values(
                        |l: Seq<char>| link_name(toolchain, l, host),
                    ),
                    ..old(deps)@
                })
                &&& final(vcpkg)@.len() == old(vcpkg)@.len() + 1
                &&& final(vcpkg)@.drop_last() == old(vcpkg)@
                &&& final(vcpkg)@.last().name@ == lower_seq(name@)
                &&& strs(final(vcpkg)@.last().features@) == strs(features@)
            } else {
                &&& final(deps)@ == old(deps)@
                &&& final(vcpkg)@ == old(vcpkg)@
                &&& res matches Some(DepRoot::Local(p)) && p@ == src@
            },
            Dependency::Headers { headers, .. } => {
                &&& res is None
                &&& final(deps)@ == (DependenciesView {
                    incdirs: old(deps)@.incdirs.push(headers@),
                    ..old(deps)@
                })
                &&& final(vcpkg)@ == old(vcpkg)@
            },
            Dependency::System { system } => {
                &&& res is None
                &&& final(deps)@ == (DependenciesView {
                    archives: old(deps)@.archives.push(link_name(toolchain, system@, host)),
                    ..old(deps)@
                })
                &&& final(vcpkg)@ == old(vcpkg)@
            },
        },
{
    match dep {
        Dependency::Git { git, tag, .. } => {
            let path = package_dir(home, git.as_str(), host);
            let t = match tag {
                Some(t) => Some(owned(t.as_str())),
                None => None,
            };
            Some(DepRoot::Cloned { path, url: owned(git.as_str()), tag: t })
        },
        Dependency::Package { src, targets, features } => {
            if crate::text::str_eq(src.as_str(), "vcpkg") {
                vcpkg.push(vcpkg_dependency(name, features));
                deps.add_targets(targets, toolchain, host);
                None
            } else {
                Some(DepRoot::Local(owned(src.as_str())))
            }
        },
        Dependency::Headers { headers, .. } => {
            deps.add_headers(headers.as_str());
            None
        },
        Dependency::System { system } => {
            deps.add_system(system.as_str(), toolchain, host);
            None
        },
    }
}

/// The arguments of `git` that clone `url` into `dest`, at `tag` if one is given.
pub open spec fn clone_args(url: Seq<char>, tag: Option<Seq<char>>, dest: Seq<char>) -> Seq<Seq<char>> {
    seq!["clone"@] + match tag {
        Some(t) => seq!["--branch"@, t, "--depth"@, "1"@, url],
        None => seq![url],
    } + seq![dest]
}

pub fn git_clone_args(url: &str, tag: &Option<String>, dest: &str) -> (res: Vec<String>)
    ensures
        strs(res@) == clone_args(url@, crate::text::opt_str(*tag), dest@),
{
    let mut v: Vec<String> = Vec::new();
    push_str(&mut v, owned("clone"));
    match tag {
        Some(t) => {
            push_str(&mut v, owned("--branch"));
            push_str(&mut v, owned(t.as_str()));
            push_str(&mut v, owned("--depth"));
            push_str(&mut v, owned("1"));
        },
        None => {},
    }
    push_str(&mut v, owned(url));
    push_str(&mut v, owned(dest));
    assert(strs(v@) =~= clone_args(url@, crate::text::opt_str(*tag), dest@));
    v
}


/// Where a package cloned from a repository lives: below the user's home, named by the
/// stem of the repository's address.
pub open spec fn package_dir_spec(home: Seq<char>, url: Seq<char>, host: Platform) -> Seq<char> {
    path_join(host, home, ".vango/packages/"@ + stem_of(last_component(url, host)))
}

pub fn package_dir(home: &str, url: &str, host: Platform) -> (res: String)
    requires
        names_file(url@, host),
    ensures
        res@ == package_dir_spec(home@, url@, host),
{
    let stem = file_stem(url, host);
    join(host, home, concat(".vango/packages/", stem.as_str()).as_str())
}

} // verus!
