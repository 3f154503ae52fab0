//! What a build needs to know, and the command lines that carry it out.
pub mod agnostic;
pub mod cmdline;
pub mod command;
pub mod gnu;
pub mod incremental;
pub mod mocks;
pub mod output;
pub mod run;
pub mod msvc;
pub mod toolchain;

pub use toolchain::{Archiver, Compiler, Linker, Toolchain};

use vstd::prelude::*;
use crate::config::build::BuildSettings;
use crate::config::{Artefact, Language, PrecompiledHeader};
use crate::text::{opt_str, strs};

verus! {

/// Everything a build of one project needs: what to build, with which toolchain and
/// settings, from which files, into which files. Paths are held as text.
#[derive(Debug)]
pub struct BuildInfo {
    pub artefact: Artefact,
    pub toolchain: Toolchain,
    pub lang: Language,
    pub cpprt: bool,
    pub settings: BuildSettings,
    pub changed: bool,
    pub is_testexe: bool,
    pub defines: Vec<String>,
    pub srcdir: String,
    pub incdirs: Vec<String>,
    pub libdirs: Vec<String>,
    pub rpaths: Vec<String>,
    pub outdir: String,
    pub pch: Vec<PrecompiledHeader>,
    pub sources: Vec<String>,
    pub headers: Vec<String>,
    pub archives: Vec<String>,
    pub relink: Vec<String>,
    pub outfile: String,
    pub implib: Option<String>,
    pub comp_args: Vec<String>,
    pub link_args: Vec<String>,
}

pub struct BuildInfoView {
    pub artefact: Artefact,
    pub toolchain: Toolchain,
    pub lang: Language,
    pub cpprt: bool,
    pub settings: BuildSettings,
    pub changed: bool,
    pub is_testexe: bool,
    pub defines: Seq<Seq<char>>,
    pub srcdir: Seq<char>,
    pub incdirs: Seq<Seq<char>>,
    pub libdirs: Seq<Seq<char>>,
    pub rpaths: Seq<Seq<char>>,
    pub outdir: Seq<char>,
    pub pch_count: nat,
    pub sources: Seq<Seq<char>>,
    pub headers: Seq<Seq<char>>,
    pub archives: Seq<Seq<char>>,
    pub relink: Seq<Seq<char>>,
    pub outfile: Seq<char>,
    pub implib: Option<Seq<char>>,
    pub comp_args: Seq<Seq<char>>,
    pub link_args: Seq<Seq<char>>,
}

impl View for BuildInfo {
    type V = BuildInfoView;

    open spec fn view(&self) -> BuildInfoView {
        BuildInfoView {
            artefact: self.artefact,
            toolchain: self.toolchain,
            lang: self.lang,
            cpprt: self.cpprt,
            settings: self.settings,
            changed: self.changed,
            is_testexe: self.is_testexe,
            defines: strs(self.defines@),
            srcdir: self.srcdir@,
            incdirs: strs(self.incdirs@),
            libdirs: strs(self.libdirs@),
            rpaths: strs(self.rpaths@),
            outdir: self.outdir@,
            pch_count: self.pch@.len(),
            sources: strs(self.sources@),
            headers: strs(self.headers@),
            archives: strs(self.archives@),
            relink: strs(self.relink@),
            outfile: self.outfile@,
            implib: opt_str(self.implib),
            comp_args: strs(self.comp_args@),
            link_args: strs(self.link_args@),
        }
    }
}

/// The part a source plays in precompiling a header: none (`NotUsed`), the one compiled
/// to create it, or one that uses it.
#[derive(Debug, Clone, PartialEq, Eq)]
pub enum PreCompHead {
    NotUsed,
    Create(String),
    Use(String),
}

pub enum PchView {
    NotUsed,
    Create(Seq<char>),
    Use(Seq<char>),
}

impl View for PreCompHead {
    type V = PchView;

    open spec fn view(&self) -> PchView {
        match self {
            PreCompHead::NotUsed => PchView::NotUsed,
            PreCompHead::Create(h) => PchView::Create(h@),
            PreCompHead::Use(h) => PchView::Use(h@),
        }
    }
}

/// A program and the arguments to start it with.
#[derive(Debug, Clone, PartialEq, Eq)]
pub struct CommandLine {
    pub program: String,
    pub args: Vec<String>,
}

} // verus!
