//! The plain project and library records of the description format.
use vstd::prelude::*;
use crate::text::{one_string, owned, strs};

verus! {

/// A project: its sources, include directories, definitions and dependencies.
#[derive(Debug, Clone)]
pub struct BuildDef {
    pub project: String,
    pub cppstd: String,
    pub src_dir: String,
    pub inc_dirs: Vec<String>,
    pub defines: Vec<String>,
    pub dependencies: Vec<String>,
    pub pch: Option<String>,
}

/// The source directory of a project that names none.
pub fn src_def() -> (res: String)
    ensures
        res@ == "src/"@,
{
    owned("src/")
}

/// The include directories of a project that names none: its source directory.
pub fn inc_def() -> (res: Vec<String>)
    ensures
        strs(res@) == seq!["src/"@],
{
    one_string("src/")
}

/// A prebuilt library and its configurations by name.
#[derive(Debug, Clone)]
pub struct LibDef {
    pub library: String,
    pub minstd: String,
    pub incdir: String,
    pub all: Option<LibConfig>,
    pub configs: Vec<(String, LibConfig)>,
}

/// One configuration of a prebuilt library.
#[derive(Debug, Clone)]
pub struct LibConfig {
    pub defines: Vec<String>,
    pub binary_debug: String,
    pub binary_release: String,
    pub links: Vec<String>,
}

/// What the dependencies of a project add to its build.
#[derive(Debug, Clone)]
pub struct Dependencies {
    pub incdirs: Vec<String>,
    pub headers: Vec<String>,
    pub libdirs: Vec<String>,
    pub links: Vec<String>,
    pub defines: Vec<String>,
}

} // verus!
