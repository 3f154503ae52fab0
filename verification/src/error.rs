//! The failures the library reports, each carrying the names and paths that explain it.
use vstd::prelude::*;
use crate::config::Language;
use crate::exec::Toolchain;

verus! {

/// Everything that can go wrong while reading a manifest, parsing a command line or
/// preparing a build. Paths are carried as their text.
#[derive(Debug, Clone, PartialEq, Eq)]
pub enum Error {
    BadAction(String),
    ExtraArgs(String, Vec<String>),
    MissingBuildScript(String),
    TomlParse(String),
    MimicTomlSemver(String),
    MimicTomlArtefact(String),
    InvalidPkgHeader(String),
    MsvcUnavailable,
    UnknownToolchain(String),
    UnknownToolChain(String),
    PlatformUnavailable,
    DirectoryNotFound(String),
    InvalidCppStd(String),
    IncompatibleCppStd(String, Language, String, Language),
    ProfileUnavailable(String, String),
    InvalidCustomProfile(String),
    InvalidDependency(String),
    CompilerNotFound(Toolchain),
    LinkerNotFound(Toolchain),
    ArchiverNotFound(Toolchain),
    CompilerFail(String),
    ArchiverFail(String),
    LinkerFail(String),
    MissingTests(String),
    InvalidExe(String),
    LibNotExe(String),
    ExeKilled(String, String),
    FileSystem(String),
}

} // verus!
