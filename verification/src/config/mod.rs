//! Manifests: the package manifest a project is built from, and the manifest that
//! describes a prebuilt library.
pub mod build;
pub mod elems;
pub mod lib;
pub mod order;
pub mod profiles;
pub mod settings;

pub use elems::{
    Artefact, Language, Platform, PrecompiledHeader, Profile, ProfileView, Runtime, Sanitizer,
    VcpkgConfig, Version, WarnLevel,
};

use vstd::prelude::*;
use crate::config::build::PackageManifest;
use crate::config::lib::LibManifest;
use crate::error::Error;
use crate::text::{owned, str_eq, strs};

verus! {

/// A manifest of either kind.
#[derive(Debug)]
pub enum VangoFile {
    Build(PackageManifest),
    Lib(LibManifest),
}

impl VangoFile {
    pub fn get_build(self) -> (res: Option<PackageManifest>)
        ensures
            match self {
                VangoFile::Build(b) => res == Some(b),
                VangoFile::Lib(_) => res is None,
            },
    {
        match self {
            VangoFile::Build(b) => Some(b),
            VangoFile::Lib(_) => None,
        }
    }

    pub fn get_lib(self) -> (res: Option<LibManifest>)
        ensures
            match self {
                VangoFile::Lib(l) => res == Some(l),
                VangoFile::Build(_) => res is None,
            },
    {
        match self {
            VangoFile::Lib(l) => Some(l),
            VangoFile::Build(_) => None,
        }
    }

    pub fn unwrap_build(self) -> (res: PackageManifest)
        requires
            self is Build,
        ensures
            self == VangoFile::Build(res),
    {
        self.get_build().unwrap()
    }

    pub fn unwrap_lib(self) -> (res: LibManifest)
        requires
            self is Lib,
        ensures
            self == VangoFile::Lib(res),
    {
        self.get_lib().unwrap()
    }
}

/// Which kind of manifest a document is.
/// The manifest file names looked for in a package's directory, in order: the one
/// named for the host first, then the generic ones.
pub open spec fn manifest_names(host: Platform) -> Seq<Seq<char>> {
    let own = match host {
        Platform::Windows => "win.Vango.toml"@,
        Platform::Linux => "lnx.Vango.toml"@,
        Platform::Macos => "mac.Vango.toml"@,
    };
    seq![own, "mac.vango.toml"@, "Vango.toml"@, "vango.toml"@]
}

pub fn manifest_candidates(host: Platform) -> (res: Vec<String>)
    ensures
        strs(res@) == manifest_names(host),
{
    let own = match host {
        Platform::Windows => "win.Vango.toml",
        Platform::Linux => "lnx.Vango.toml",
        Platform::Macos => "mac.Vango.toml",
    };
    let mut v: Vec<String> = Vec::new();
    v.push(owned(own));
    v.push(owned("mac.vango.toml"));
    v.push(owned("Vango.toml"));
    v.push(owned("vango.toml"));
    assert(strs(v@) =~= manifest_names(host));
    v
}

#[derive(Debug, Clone, Copy, PartialEq, Eq, Structural)]
pub enum ManifestKind {
    Build,
    Lib,
}

/// The keys of the top-level table of a TOML document, in the order `toml::Table` keeps
/// them, or nothing when the text is not a TOML document.
pub uninterp spec fn toml_top_keys(src: Seq<char>) -> Option<Seq<Seq<char>>>;

/// Parses `src` with `toml::from_str::<toml::Table>` and hands back the keys of the
/// table, or the parser's message. The contract names the keys and says nothing of the
/// message.
#[verifier::external_body]
fn parse_top_keys(src: &str) -> (res: Result<Vec<String>, String>)
    ensures
        match res {
            Ok(keys) => toml_top_keys(src@) == Some(strs(keys@)),
            Err(_) => toml_top_keys(src@) is None,
        },
{
    match toml::from_str::<toml::Table>(src) {
        Ok(table) => Ok(table.keys().cloned().collect()),
        Err(e) => Err(e.to_string()),
    }
}

/// A `[package]` table makes a package manifest, else a `[staticlib]` table a library
/// manifest.
pub open spec fn kind_of_keys(keys: Seq<Seq<char>>) -> Option<ManifestKind> {
    if keys.contains("package"@) {
        Some(ManifestKind::Build)
    } else if keys.contains("staticlib"@) {
        Some(ManifestKind::Lib)
    } else {
        None
    }
}

fn has_key(keys: &Vec<String>, key: &str) -> (res: bool)
    ensures
        res == strs(keys@).contains(key@),
{
    let mut i: usize = 0;
    while i < keys.len()
        invariant
            i <= keys@.len(),
            forall|j: int| 0 <= j < i ==> #[trigger] strs(keys@)[j] != key@,
        decreases keys@.len() - i,
    {
        if str_eq(keys[i].as_str(), key) {
            assert(strs(keys@)[i as int] == key@);
            return true;
        }
        i = i + 1;
    }
    false
}

/// The kind of manifest a document with these top-level keys is; a document with
/// neither table is refused, naming the directory it was read in.
pub fn kind_of(keys: &Vec<String>, dir: &str) -> (res: Result<ManifestKind, Error>)
    ensures
        match kind_of_keys(strs(keys@)) {
            Some(k) => res == Ok::<ManifestKind, Error>(k),
            None => res matches Err(Error::InvalidPkgHeader(d)) && d@ == dir@,
        },
{
    if has_key(keys, "package") {
        Ok(ManifestKind::Build)
    } else if has_key(keys, "staticlib") {
        Ok(ManifestKind::Lib)
    } else {
        Err(Error::InvalidPkgHeader(owned(dir)))
    }
}

/// The kind of manifest the document `src`, read in directory `dir`, is.
pub fn manifest_kind(src: &str, dir: &str) -> (res: Result<ManifestKind, Error>)
    ensures
        match toml_top_keys(src@) {
            None => res matches Err(Error::TomlParse(_)),
            Some(keys) => match kind_of_keys(keys) {
                Some(k) => res == Ok::<ManifestKind, Error>(k),
                None => res matches Err(Error::InvalidPkgHeader(d)) && d@ == dir@,
            },
        },
{
    match parse_top_keys(src) {
        Ok(keys) => kind_of(&keys, dir),
        Err(msg) => Err(Error::TomlParse(msg)),
    }
}

} // verus!
