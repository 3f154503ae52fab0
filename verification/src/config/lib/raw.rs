//! A prebuilt library's manifest as written.
use vstd::prelude::*;
use crate::text::{opt_str, strs};

verus! {

/// A profile section of a library manifest.
#[derive(Debug, Default, Clone, PartialEq, Eq)]
pub struct LibProfile {
    pub inherits: Option<String>,
    pub include_dir: Option<String>,
    pub libdir: Option<String>,
    pub binaries: Vec<String>,
    pub defines: Vec<String>,
}

pub struct LibProfileView {
    pub inherits: Option<Seq<char>>,
    pub include_dir: Option<Seq<char>>,
    pub libdir: Option<Seq<char>>,
    pub binaries: Seq<Seq<char>>,
    pub defines: Seq<Seq<char>>,
}

impl View for LibProfile {
    type V = LibProfileView;

    open spec fn view(&self) -> LibProfileView {
        LibProfileView {
            inherits: opt_str(self.inherits),
            include_dir: opt_str(self.include_dir),
            libdir: opt_str(self.libdir),
            binaries: strs(self.binaries@),
            defines: strs(self.defines@),
        }
    }
}

/// The `[staticlib]` section.
#[derive(Debug, Clone, PartialEq, Eq)]
pub struct Library {
    pub name: String,
    pub version: String,
    pub lang: String,
    pub defaults: LibProfile,
}

/// The whole library manifest; profiles in the order they were read, each name once.
#[derive(Debug, Clone, PartialEq, Eq)]
pub struct LibManifest {
    pub staticlib: Library,
    pub profile: Vec<(String, LibProfile)>,
}

/// An optional part of a library: what it needs and the binaries it adds.
#[derive(Debug, Default, Clone, PartialEq, Eq)]
pub struct Feature {
    pub requires: Vec<String>,
    pub binaries: Vec<String>,
}

} // verus!
