//! A build manifest as written: every setting optional, profiles by name.
use vstd::prelude::*;
use crate::config::{Artefact, Runtime, Sanitizer, VcpkgConfig, WarnLevel};
use crate::config::build::Dependency;
use crate::exec::Toolchain;
use crate::text::{opt_str, strs};

verus! {

/// The settings a profile section may give; what it leaves out is inherited.
#[derive(Debug, Default, Clone, Copy, PartialEq, Eq, Structural)]
pub struct BuildSettings {
    pub opt_level: Option<u32>,
    pub opt_size: Option<bool>,
    pub opt_speed: Option<bool>,
    pub opt_linktime: Option<bool>,
    pub iso_compliant: Option<bool>,
    pub warn_level: Option<WarnLevel>,
    pub warn_as_error: Option<bool>,
    pub debug_info: Option<bool>,
    pub runtime: Option<Runtime>,
    pub aslr: Option<bool>,
    pub no_rtti: Option<bool>,
    pub no_except: Option<bool>,
    pub pthreads: Option<bool>,
    pub sanitize: Sanitizer,
}

/// A profile section: what it adds to and overrides in the profile it builds on.
#[derive(Debug, Default, Clone, PartialEq, Eq)]
pub struct BuildProfile {
    pub inherits: Option<String>,
    pub defines: Vec<String>,
    pub include_dirs: Vec<String>,
    pub pch: Option<String>,
    pub build_settings: BuildSettings,
    pub compiler_options: Vec<String>,
    pub linker_options: Vec<String>,
}

pub struct BuildProfileView {
    pub inherits: Option<Seq<char>>,
    pub defines: Seq<Seq<char>>,
    pub include_dirs: Seq<Seq<char>>,
    pub pch: Option<Seq<char>>,
    pub build_settings: BuildSettings,
    pub compiler_options: Seq<Seq<char>>,
    pub linker_options: Seq<Seq<char>>,
}

impl View for BuildProfile {
    type V = BuildProfileView;

    open spec fn view(&self) -> BuildProfileView {
        BuildProfileView {
            inherits: opt_str(self.inherits),
            defines: strs(self.defines@),
            include_dirs: strs(self.include_dirs@),
            pch: opt_str(self.pch),
            build_settings: self.build_settings,
            compiler_options: strs(self.compiler_options@),
            linker_options: strs(self.linker_options@),
        }
    }
}

/// The `[package]` section.
#[derive(Debug, Clone, PartialEq, Eq)]
pub struct Build {
    pub name: String,
    pub version: String,
    pub lang: String,
    pub artefact: Option<Artefact>,
    pub toolchain: Option<Toolchain>,
    pub implib: Option<bool>,
    pub interface: Option<String>,
    pub runtime: Option<String>,
    pub defaults: BuildProfile,
}

/// The whole manifest; dependencies and profiles in the order they were read, each
/// name once.
#[derive(Debug, Clone, PartialEq, Eq)]
pub struct BuildFile {
    pub package: Build,
    pub vcpkg: Option<VcpkgConfig>,
    pub dependencies: Vec<(String, Dependency)>,
    pub profile: Vec<(String, BuildProfile)>,
}

} // verus!
