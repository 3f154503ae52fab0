//! The command line of the tool: `vango [-h] [-v] [ACTION [ARGS]]`, where each action
//! takes its own switches and values. Arguments are read left to right; the first
//! problem met is the one reported, then the switches that exclude each other are
//! checked.
use vstd::prelude::*;
use crate::config::elems::profile_from_name;
use crate::config::{Platform, Profile, ProfileView};
use crate::exec::toolchain::{spec_system_default, toolchain_from_name, toolchain_title};
use crate::exec::Toolchain;
use crate::text::{opt_str, strs};
use crate::text::{concat3, has_prefix, owned, str_eq, strip_prefix};

verus! {

/// What the `gen` action can generate.
#[derive(Debug, Clone, Copy, PartialEq, Eq, Structural)]
pub enum GenTarget {
    Clangd,
}

/// The choices made when a project is created.
#[derive(Debug, Clone, Copy, PartialEq, Eq, Structural)]
pub struct ProjectOpts {
    pub library: bool,
    pub strict: bool,
    pub is_c: bool,
    pub clangd: bool,
}

/// The switches of the build, run and test actions as given.
#[derive(Debug, Clone, PartialEq, Eq)]
pub struct BuildArgs {
    pub debug: bool,
    pub release: bool,
    pub profile: Option<String>,
    pub toolchain: Option<Toolchain>,
    pub install: bool,
    pub echo: bool,
    pub verbose: bool,
}

pub struct BuildArgsView {
    pub debug: bool,
    pub release: bool,
    pub profile: Option<Seq<char>>,
    pub toolchain: Option<Toolchain>,
    pub install: bool,
    pub echo: bool,
    pub verbose: bool,
}

impl View for BuildArgs {
    type V = BuildArgsView;

    open spec fn view(&self) -> BuildArgsView {
        BuildArgsView {
            debug: self.debug,
            release: self.release,
            profile: opt_str(self.profile),
            toolchain: self.toolchain,
            install: self.install,
            echo: self.echo,
            verbose: self.verbose,
        }
    }
}

/// The settings a build runs with, as the build, run and test actions hand them on.
#[derive(Debug, Clone, PartialEq, Eq)]
pub struct BuildSwitches {
    pub profile: Profile,
    pub toolchain: Option<Toolchain>,
    pub install: bool,
    pub echo: bool,
    pub verbose: bool,
    pub is_test: bool,
}

pub struct SwitchesView {
    pub profile: ProfileView,
    pub toolchain: Option<Toolchain>,
    pub install: bool,
    pub echo: bool,
    pub verbose: bool,
    pub is_test: bool,
}

impl View for BuildSwitches {
    type V = SwitchesView;

    open spec fn view(&self) -> SwitchesView {
        SwitchesView {
            profile: self.profile@,
            toolchain: self.toolchain,
            install: self.install,
            echo: self.echo,
            verbose: self.verbose,
            is_test: self.is_test,
        }
    }
}

impl Default for BuildSwitches {
    /// The debug profile, no toolchain asked for, every flag off.
    fn default() -> (res: BuildSwitches)
        ensures
            res@ == (SwitchesView {
                profile: ProfileView::Debug,
                toolchain: None,
                install: false,
                echo: false,
                verbose: false,
                is_test: false,
            }),
    {
        BuildSwitches {
            profile: Profile::Debug,
            toolchain: None,
            install: false,
            echo: false,
            verbose: false,
            is_test: false,
        }
    }
}

/// The settings that given switches ask for: `--profile=` names the profile, else
/// `--release` selects the release profile, else it is the debug profile.
pub open spec fn switches_of(b: BuildArgsView, is_test: bool) -> SwitchesView {
    SwitchesView {
        profile: match b.profile {
            Some(p) => profile_from_name(p),
            None => if b.release {
                ProfileView::Release
            } else {
                ProfileView::Debug
            },
        },
        toolchain: b.toolchain,
        install: b.install,
        echo: b.echo,
        verbose: b.verbose,
        is_test,
    }
}

impl BuildArgs {
    /// The settings these switches ask for.
    pub fn into_switches(self, is_test: bool) -> (res: BuildSwitches)
        ensures
            res@ == switches_of(self@, is_test),
    {
        let profile = match self.profile {
            Some(p) => match Profile::from_str(p.as_str()) {
                Ok(pr) => pr,
                Err(_) => Profile::Custom(p),
            },
            None => if self.release {
                Profile::Release
            } else {
                Profile::Debug
            },
        };
        BuildSwitches {
            profile,
            toolchain: self.toolchain,
            install: self.install,
            echo: self.echo,
            verbose: self.verbose,
            is_test,
        }
    }
}

/// What the command line asks for.
#[derive(Debug, Clone, PartialEq, Eq)]
pub enum Action {
    New { name: String, opts: ProjectOpts },
    Init { opts: ProjectOpts },
    Help { action: Option<String> },
    Clean,
    Build { build: BuildArgs },
    Run { build: BuildArgs, args: Vec<String> },
    Test { build: BuildArgs, args: Vec<String> },
    Gen { target: GenTarget },
    Version,
}

pub enum ActionView {
    New { name: Seq<char>, opts: ProjectOpts },
    Init { opts: ProjectOpts },
    Help { action: Option<Seq<char>> },
    Clean,
    Build { build: BuildArgsView },
    Run { build: BuildArgsView, args: Seq<Seq<char>> },
    Test { build: BuildArgsView, args: Seq<Seq<char>> },
    Gen { target: GenTarget },
    Version,
}

impl View for Action {
    type V = ActionView;

    open spec fn view(&self) -> ActionView {
        match self {
            Action::New { name, opts } => ActionView::New { name: name@, opts: *opts },
            Action::Init { opts } => ActionView::Init { opts: *opts },
            Action::Help { action } => ActionView::Help { action: opt_str(*action) },
            Action::Clean => ActionView::Clean,
            Action::Build { build } => ActionView::Build { build: build@ },
            Action::Run { build, args } => ActionView::Run { build: build@, args: strs(args@) },
            Action::Test { build, args } => ActionView::Test { build: build@, args: strs(args@) },
            Action::Gen { target } => ActionView::Gen { target: *target },
            Action::Version => ActionView::Version,
        }
    }
}

/// The parsed command line. `help` is never set: asking for help ends the parse.
#[derive(Debug, Clone, PartialEq, Eq)]
pub struct Cli {
    pub help: Option<bool>,
    pub version: bool,
    pub action: Option<Action>,
}

pub struct CliView {
    pub version: bool,
    pub action: Option<ActionView>,
}

pub open spec fn opt_action(a: Option<Action>) -> Option<ActionView> {
    match a {
        Some(x) => Some(x@),
        None => None,
    }
}

impl View for Cli {
    type V = CliView;

    open spec fn view(&self) -> CliView {
        CliView { version: self.version, action: opt_action(self.action) }
    }
}

/// Why a command line was not accepted. `DisplayHelp` is the request for help, which
/// ends the parse as well.
#[derive(Debug, Clone, PartialEq, Eq)]
pub enum CliError {
    DisplayHelp,
    UnknownArgument(String),
    InvalidSubcommand(String),
    InvalidValue(String),
    ArgumentConflict(String, String),
    UsedTwice(String),
    MissingRequired(String),
}

pub enum CliErr {
    DisplayHelp,
    UnknownArgument(Seq<char>),
    InvalidSubcommand(Seq<char>),
    InvalidValue(Seq<char>),
    ArgumentConflict(Seq<char>, Seq<char>),
    UsedTwice(Seq<char>),
    MissingRequired(Seq<char>),
}

impl View for CliError {
    type V = CliErr;

    open spec fn view(&self) -> CliErr {
        match self {
            CliError::DisplayHelp => CliErr::DisplayHelp,
            CliError::UnknownArgument(a) => CliErr::UnknownArgument(a@),
            CliError::InvalidSubcommand(a) => CliErr::InvalidSubcommand(a@),
            CliError::InvalidValue(a) => CliErr::InvalidValue(a@),
            CliError::ArgumentConflict(a, b) => CliErr::ArgumentConflict(a@, b@),
            CliError::UsedTwice(a) => CliErr::UsedTwice(a@),
            CliError::MissingRequired(a) => CliErr::MissingRequired(a@),
        }
    }
}

/// A result by the views of its two sides.
pub open spec fn res_view<T: View>(r: Result<T, CliError>) -> Result<T::V, CliErr> {
    match r {
        Ok(v) => Ok(v@),
        Err(e) => Err(e@),
    }
}

/// The actions, each reached by its name or its one letter alias.
#[derive(Debug, Clone, Copy, PartialEq, Eq, Structural)]
pub enum Sub {
    New,
    Init,
    Help,
    Clean,
    Build,
    Run,
    Test,
    Gen,
    Version,
}

pub open spec fn sub_of(a: Seq<char>) -> Option<Sub> {
    if a == "new"@ {
        Some(Sub::New)
    } else if a == "init"@ {
        Some(Sub::Init)
    } else if a == "help"@ {
        Some(Sub::Help)
    } else if a == "clean"@ || a == "c"@ {
        Some(Sub::Clean)
    } else if a == "build"@ || a == "b"@ {
        Some(Sub::Build)
    } else if a == "run"@ || a == "r"@ {
        Some(Sub::Run)
    } else if a == "test"@ || a == "t"@ {
        Some(Sub::Test)
    } else if a == "gen"@ {
        Some(Sub::Gen)
    } else if a == "version"@ {
        Some(Sub::Version)
    } else {
        None
    }
}

/// What one argument is, read on its own.
pub enum Word {
    Help,
    Dashes,
    Debug,
    Release,
    Profile(Seq<char>),
    Toolchain(Seq<char>),
    Install,
    Echo,
    Verbose,
    Lib,
    Strict,
    C,
    Clangd,
    Flag,
    Value,
}

/// An argument that looks like a switch: a dash followed by something.
pub open spec fn flag_like(a: Seq<char>) -> bool {
    a.len() > 1 && a[0] == '-'
}

pub open spec fn word_of(a: Seq<char>) -> Word {
    if a == "-h"@ || a == "--help"@ {
        Word::Help
    } else if a == "--"@ {
        Word::Dashes
    } else if a == "-d"@ || a == "--debug"@ {
        Word::Debug
    } else if a == "-r"@ || a == "--release"@ {
        Word::Release
    } else if has_prefix(a, "--profile="@) {
        Word::Profile(a.skip("--profile="@.len() as int))
    } else if has_prefix(a, "-p="@) {
        Word::Profile(a.skip("-p="@.len() as int))
    } else if has_prefix(a, "--toolchain="@) {
        Word::Toolchain(a.skip("--toolchain="@.len() as int))
    } else if has_prefix(a, "-t="@) {
        Word::Toolchain(a.skip("-t="@.len() as int))
    } else if a == "--install"@ {
        Word::Install
    } else if a == "--echo"@ {
        Word::Echo
    } else if a == "-v"@ || a == "--verbose"@ {
        Word::Verbose
    } else if a == "--lib"@ {
        Word::Lib
    } else if a == "--strict"@ {
        Word::Strict
    } else if a == "--c"@ {
        Word::C
    } else if a == "--clangd"@ {
        Word::Clangd
    } else if flag_like(a) {
        Word::Flag
    } else {
        Word::Value
    }
}

/// What has been read of an action's arguments so far.
pub struct SubState {
    pub debug: bool,
    pub release: bool,
    pub profile: Option<Seq<char>>,
    pub toolchain: Option<Toolchain>,
    pub install: bool,
    pub echo: bool,
    pub verbose: bool,
    pub opts: ProjectOpts,
    pub values: Seq<Seq<char>>,
    pub dashes: bool,
}

pub open spec fn sub_start() -> SubState {
    SubState {
        debug: false,
        release: false,
        profile: None,
        toolchain: None,
        install: false,
        echo: false,
        verbose: false,
        opts: ProjectOpts { library: false, strict: false, is_c: false, clangd: false },
        values: Seq::empty(),
        dashes: false,
    }
}

/// The topics of the help action.
pub open spec fn help_topic(a: Seq<char>) -> bool {
    a == "new"@ || a == "init"@ || a == "clean"@ || a == "gen"@ || a == "build"@ || a == "run"@
        || a == "test"@ || a == "toolchains"@
}

pub open spec fn takes_build_switches(k: Sub) -> bool {
    k == Sub::Build || k == Sub::Run || k == Sub::Test
}

pub open spec fn takes_project_switches(k: Sub) -> bool {
    k == Sub::New || k == Sub::Init
}

/// A plain value given to action `k`.
pub open spec fn value_step(k: Sub, st: SubState, a: Seq<char>) -> Result<SubState, CliErr> {
    let kept = SubState { values: st.values.push(a), ..st };
    match k {
        Sub::New => if st.values.len() == 0 {
            Ok(kept)
        } else {
            Err(CliErr::UnknownArgument(a))
        },
        Sub::Help => if st.values.len() == 0 {
            if help_topic(a) {
                Ok(kept)
            } else {
                Err(CliErr::InvalidValue(a))
            }
        } else {
            Err(CliErr::UnknownArgument(a))
        },
        Sub::Gen => if st.values.len() == 0 {
            if a == "clangd"@ {
                Ok(kept)
            } else {
                Err(CliErr::InvalidValue(a))
            }
        } else {
            Err(CliErr::UnknownArgument(a))
        },
        Sub::Test => Ok(kept),
        Sub::Run => if st.dashes {
            Ok(kept)
        } else {
            Err(CliErr::UnknownArgument(a))
        },
        _ => Err(CliErr::UnknownArgument(a)),
    }
}

/// A switch of the build actions, set once.
pub open spec fn build_switch_step(st: SubState, w: Word, a: Seq<char>) -> Result<SubState, CliErr> {
    match w {
        Word::Debug => if st.debug {
            Err(CliErr::UsedTwice("--debug"@))
        } else {
            Ok(SubState { debug: true, ..st })
        },
        Word::Release => if st.release {
            Err(CliErr::UsedTwice("--release"@))
        } else {
            Ok(SubState { release: true, ..st })
        },
        Word::Profile(p) => if st.profile is Some {
            Err(CliErr::UsedTwice("--profile"@))
        } else {
            Ok(SubState { profile: Some(p), ..st })
        },
        Word::Toolchain(t) => if st.toolchain is Some {
            Err(CliErr::UsedTwice("--toolchain"@))
        } else {
            match toolchain_from_name(t) {
                Some(tc) => Ok(SubState { toolchain: Some(tc), ..st }),
                None => Err(CliErr::InvalidValue(t)),
            }
        },
        Word::Install => if st.install {
            Err(CliErr::UsedTwice("--install"@))
        } else {
            Ok(SubState { install: true, ..st })
        },
        Word::Echo => if st.echo {
            Err(CliErr::UsedTwice("--echo"@))
        } else {
            Ok(SubState { echo: true, ..st })
        },
        Word::Verbose => if st.verbose {
            Err(CliErr::UsedTwice("--verbose"@))
        } else {
            Ok(SubState { verbose: true, ..st })
        },
        _ => Err(CliErr::UnknownArgument(a)),
    }
}

/// A switch of the project actions, set once.
pub open spec fn project_switch_step(st: SubState, w: Word, a: Seq<char>) -> Result<SubState, CliErr> {
    let o = st.opts;
    match w {
        Word::Lib => if o.library {
            Err(CliErr::UsedTwice("--lib"@))
        } else {
            Ok(SubState { opts: ProjectOpts { library: true, ..o }, ..st })
        },
        Word::Strict => if o.strict {
            Err(CliErr::UsedTwice("--strict"@))
        } else {
            Ok(SubState { opts: ProjectOpts { strict: true, ..o }, ..st })
        },
        Word::C => if o.is_c {
            Err(CliErr::UsedTwice("--c"@))
        } else {
            Ok(SubState { opts: ProjectOpts { is_c: true, ..o }, ..st })
        },
        Word::Clangd => if o.clangd {
            Err(CliErr::UsedTwice("--clangd"@))
        } else {
            Ok(SubState { opts: ProjectOpts { clangd: true, ..o }, ..st })
        },
        _ => Err(CliErr::UnknownArgument(a)),
    }
}

pub open spec fn is_build_word(w: Word) -> bool {
    w is Debug || w is Release || w is Profile || w is Toolchain || w is Install || w is Echo
        || w is Verbose
}

pub open spec fn is_project_word(w: Word) -> bool {
    w is Lib || w is Strict || w is C || w is Clangd
}

/// One argument of action `k`: after `--` every argument is a value.
#[verifier::opaque]
pub open spec fn sub_step(k: Sub, st: SubState, a: Seq<char>) -> Result<SubState, CliErr> {
    if st.dashes {
        value_step(k, st, a)
    } else {
        let w = word_of(a);
        if w is Help {
            Err(CliErr::DisplayHelp)
        } else if w is Dashes {
            Ok(SubState { dashes: true, ..st })
        } else if is_build_word(w) && takes_build_switches(k) {
            build_switch_step(st, w, a)
        } else if is_project_word(w) && takes_project_switches(k) {
            project_switch_step(st, w, a)
        } else if w is Value {
            value_step(k, st, a)
        } else {
            Err(CliErr::UnknownArgument(a))
        }
    }
}

/// The arguments of action `k` read in order, stopping at the first refused one.
pub open spec fn sub_fold(k: Sub, s: Seq<Seq<char>>) -> Result<SubState, CliErr>
    decreases s.len(),
{
    if s.len() == 0 {
        Ok(sub_start())
    } else {
        match sub_fold(k, s.drop_last()) {
            Ok(st) => sub_step(k, st, s.last()),
            Err(e) => Err(e),
        }
    }
}

pub open spec fn build_args_of(st: SubState) -> BuildArgsView {
    BuildArgsView {
        debug: st.debug,
        release: st.release,
        profile: st.profile,
        toolchain: st.toolchain,
        install: st.install,
        echo: st.echo,
        verbose: st.verbose,
    }
}

/// The action once all its arguments are read: required values present, and no two
/// switches that exclude each other.
pub open spec fn sub_finish(k: Sub, st: SubState) -> Result<ActionView, CliErr> {
    if takes_build_switches(k) && st.debug && st.release {
        Err(CliErr::ArgumentConflict("--debug"@, "--release"@))
    } else if takes_build_switches(k) && st.debug && st.profile is Some {
        Err(CliErr::ArgumentConflict("--debug"@, "--profile"@))
    } else if takes_build_switches(k) && st.release && st.profile is Some {
        Err(CliErr::ArgumentConflict("--release"@, "--profile"@))
    } else {
        match k {
            Sub::New => if st.values.len() == 0 {
                Err(CliErr::MissingRequired("<NAME>"@))
            } else {
                Ok(ActionView::New { name: st.values[0], opts: st.opts })
            },
            Sub::Init => Ok(ActionView::Init { opts: st.opts }),
            Sub::Help => Ok(
                ActionView::Help {
                    action: if st.values.len() == 0 {
                        None
                    } else {
                        Some(st.values[0])
                    },
                },
            ),
            Sub::Clean => Ok(ActionView::Clean),
            Sub::Build => Ok(ActionView::Build { build: build_args_of(st) }),
            Sub::Run => Ok(ActionView::Run { build: build_args_of(st), args: st.values }),
            Sub::Test => Ok(ActionView::Test { build: build_args_of(st), args: st.values }),
            Sub::Gen => if st.values.len() == 0 {
                Err(CliErr::MissingRequired("<TARGET>"@))
            } else {
                Ok(ActionView::Gen { target: GenTarget::Clangd })
            },
            Sub::Version => Ok(ActionView::Version),
        }
    }
}

pub open spec fn sub_spec(k: Sub, s: Seq<Seq<char>>) -> Result<ActionView, CliErr> {
    match sub_fold(k, s) {
        Ok(st) => sub_finish(k, st),
        Err(e) => Err(e),
    }
}

/// The whole command line after the program name: `-h` and `-v` may come before the
/// action, and the version switch excludes an action.
pub open spec fn cli_spec(s: Seq<Seq<char>>, version: bool) -> Result<CliView, CliErr>
    decreases s.len(),
{
    if s.len() == 0 {
        Ok(CliView { version, action: None })
    } else {
        let a = s[0];
        if a == "-h"@ || a == "--help"@ {
            Err(CliErr::DisplayHelp)
        } else if a == "-v"@ || a == "--version"@ {
            if version {
                Err(CliErr::UsedTwice("--version"@))
            } else {
                cli_spec(s.drop_first(), true)
            }
        } else if flag_like(a) {
            Err(CliErr::UnknownArgument(a))
        } else {
            match sub_of(a) {
                None => Err(CliErr::InvalidSubcommand(a)),
                Some(k) => if version {
                    Err(CliErr::ArgumentConflict("--version"@, a))
                } else {
                    match sub_spec(k, s.drop_first()) {
                        Ok(act) => Ok(CliView { version: false, action: Some(act) }),
                        Err(e) => Err(e),
                    }
                },
            }
        }
    }
}


/// The help text of the toolchain switch, naming the toolchain used when none is given.
pub fn toolchain_help(host: Platform) -> (res: String)
    ensures
        res@ == "Specify a toolchain for compilation (user default: "@ + toolchain_title(
            spec_system_default(host),
        ) + ")"@,
{
    let name = Toolchain::system_default(host).to_string();
    concat3("Specify a toolchain for compilation (user default: ", name.as_str(), ")")
}

/// Reads the value of the toolchain switch.
pub fn parse_toolchain(s: &str) -> (res: Result<Toolchain, CliError>)
    ensures
        match toolchain_from_name(s@) {
            Some(t) => res == Ok::<Toolchain, CliError>(t),
            None => res matches Err(e) && e@ == CliErr::InvalidValue(s@),
        },
{
    match Toolchain::from_str(s) {
        Ok(t) => Ok(t),
        Err(_) => Err(CliError::InvalidValue(owned(s))),
    }
}

fn sub_from(a: &str) -> (res: Option<Sub>)
    ensures
        res == sub_of(a@),
{
    if str_eq(a, "new") {
        Some(Sub::New)
    } else if str_eq(a, "init") {
        Some(Sub::Init)
    } else if str_eq(a, "help") {
        Some(Sub::Help)
    } else if str_eq(a, "clean") || str_eq(a, "c") {
        Some(Sub::Clean)
    } else if str_eq(a, "build") || str_eq(a, "b") {
        Some(Sub::Build)
    } else if str_eq(a, "run") || str_eq(a, "r") {
        Some(Sub::Run)
    } else if str_eq(a, "test") || str_eq(a, "t") {
        Some(Sub::Test)
    } else if str_eq(a, "gen") {
        Some(Sub::Gen)
    } else if str_eq(a, "version") {
        Some(Sub::Version)
    } else {
        None
    }
}

enum WordArg {
    Help,
    Dashes,
    Debug,
    Release,
    Profile(String),
    Toolchain(String),
    Install,
    Echo,
    Verbose,
    Lib,
    Strict,
    C,
    Clangd,
    Flag,
    Value,
}

impl View for WordArg {
    type V = Word;

    closed spec fn view(&self) -> Word {
        match self {
            WordArg::Help => Word::Help,
            WordArg::Dashes => Word::Dashes,
            WordArg::Debug => Word::Debug,
            WordArg::Release => Word::Release,
            WordArg::Profile(p) => Word::Profile(p@),
            WordArg::Toolchain(t) => Word::Toolchain(t@),
            WordArg::Install => Word::Install,
            WordArg::Echo => Word::Echo,
            WordArg::Verbose => Word::Verbose,
            WordArg::Lib => Word::Lib,
            WordArg::Strict => Word::Strict,
            WordArg::C => Word::C,
            WordArg::Clangd => Word::Clangd,
            WordArg::Flag => Word::Flag,
            WordArg::Value => Word::Value,
        }
    }
}

fn is_flag_like(a: &str) -> (res: bool)
    ensures
        res == flag_like(a@),
{
    a.unicode_len() > 1 && a.get_char(0) == '-'
}

fn classify(a: &str) -> (w: WordArg)
    ensures
        w@ == word_of(a@),
{
    if str_eq(a, "-h") || str_eq(a, "--help") {
        WordArg::Help
    } else if str_eq(a, "--") {
        WordArg::Dashes
    } else if str_eq(a, "-d") || str_eq(a, "--debug") {
        WordArg::Debug
    } else if str_eq(a, "-r") || str_eq(a, "--release") {
        WordArg::Release
    } else if let Some(p) = strip_prefix(a, "--profile=") {
        WordArg::Profile(p)
    } else if let Some(p) = strip_prefix(a, "-p=") {
        WordArg::Profile(p)
    } else if let Some(t) = strip_prefix(a, "--toolchain=") {
        WordArg::Toolchain(t)
    } else if let Some(t) = strip_prefix(a, "-t=") {
        WordArg::Toolchain(t)
    } else if str_eq(a, "--install") {
        WordArg::Install
    } else if str_eq(a, "--echo") {
        WordArg::Echo
    } else if str_eq(a, "-v") || str_eq(a, "--verbose") {
        WordArg::Verbose
    } else if str_eq(a, "--lib") {
        WordArg::Lib
    } else if str_eq(a, "--strict") {
        WordArg::Strict
    } else if str_eq(a, "--c") {
        WordArg::C
    } else if str_eq(a, "--clangd") {
        WordArg::Clangd
    } else if is_flag_like(a) {
        WordArg::Flag
    } else {
        WordArg::Value
    }
}

struct SubArgs {
    pub debug: bool,
    pub release: bool,
    pub profile: Option<String>,
    pub toolchain: Option<Toolchain>,
    pub install: bool,
    pub echo: bool,
    pub verbose: bool,
    pub opts: ProjectOpts,
    pub values: Vec<String>,
    pub dashes: bool,
}

impl View for SubArgs {
    type V = SubState;

    closed spec fn view(&self) -> SubState {
        SubState {
            debug: self.debug,
            release: self.release,
            profile: opt_str(self.profile),
            toolchain: self.toolchain,
            install: self.install,
            echo: self.echo,
            verbose: self.verbose,
            opts: self.opts,
            values: strs(self.values@),
            dashes: self.dashes,
        }
    }
}

fn sub_args_start() -> (res: SubArgs)
    ensures
        res@ == sub_start(),
{
    let res = SubArgs {
        debug: false,
        release: false,
        profile: None,
        toolchain: None,
        install: false,
        echo: false,
        verbose: false,
        opts: ProjectOpts { library: false, strict: false, is_c: false, clangd: false },
        values: Vec::new(),
        dashes: false,
    };
    assert(res@.values =~= Seq::<Seq<char>>::empty());
    res
}

fn push_value(st: &mut SubArgs, a: String)
    ensures
        final(st)@ == (SubState { values: old(st)@.values.push(a@), ..old(st)@ }),
{
    let ghost before = st.values@;
    st.values.push(a);
    assert(strs(st.values@) =~= strs(before).push(a@));
}

fn exec_value_step(k: Sub, st: SubArgs, a: String) -> (res: Result<SubArgs, CliError>)
    ensures
        res_view(res) == value_step(k, st@, a@),
{
    let mut st = st;
    match k {
        Sub::New => if st.values.len() == 0 {
            push_value(&mut st, a);
            Ok(st)
        } else {
            Err(CliError::UnknownArgument(a))
        },
        Sub::Help => if st.values.len() == 0 {
            let s = a.as_str();
            let topic = str_eq(s, "new") || str_eq(s, "init") || str_eq(s, "clean") || str_eq(
                s,
                "gen",
            ) || str_eq(s, "build") || str_eq(s, "run") || str_eq(s, "test") || str_eq(
                s,
                "toolchains",
            );
            if topic {
                push_value(&mut st, a);
                Ok(st)
            } else {
                Err(CliError::InvalidValue(a))
            }
        } else {
            Err(CliError::UnknownArgument(a))
        },
        Sub::Gen => if st.values.len() == 0 {
            if str_eq(a.as_str(), "clangd") {
                push_value(&mut st, a);
                Ok(st)
            } else {
                Err(CliError::InvalidValue(a))
            }
        } else {
            Err(CliError::UnknownArgument(a))
        },
        Sub::Test => {
            push_value(&mut st, a);
            Ok(st)
        },
        Sub::Run => if st.dashes {
            push_value(&mut st, a);
            Ok(st)
        } else {
            Err(CliError::UnknownArgument(a))
        },
        _ => Err(CliError::UnknownArgument(a)),
    }
}

fn exec_build_switch_step(st: SubArgs, w: WordArg, a: String) -> (res: Result<SubArgs, CliError>)
    ensures
        res_view(res) == build_switch_step(st@, w@, a@),
{
    let mut st = st;
    match w {
        WordArg::Debug => if st.debug {
            Err(CliError::UsedTwice(owned("--debug")))
        } else {
            st.debug = true;
            Ok(st)
        },
        WordArg::Release => if st.release {
            Err(CliError::UsedTwice(owned("--release")))
        } else {
            st.release = true;
            Ok(st)
        },
        WordArg::Profile(p) => if st.profile.is_some() {
            Err(CliError::UsedTwice(owned("--profile")))
        } else {
            st.profile = Some(p);
            Ok(st)
        },
        WordArg::Toolchain(t) => if st.toolchain.is_some() {
            Err(CliError::UsedTwice(owned("--toolchain")))
        } else {
            match parse_toolchain(t.as_str()) {
                Ok(tc) => {
                    st.toolchain = Some(tc);
                    Ok(st)
                },
                Err(e) => Err(e),
            }
        },
        WordArg::Install => if st.install {
            Err(CliError::UsedTwice(owned("--install")))
        } else {
            st.install = true;
            Ok(st)
        },
        WordArg::Echo => if st.echo {
            Err(CliError::UsedTwice(owned("--echo")))
        } else {
            st.echo = true;
            Ok(st)
        },
        WordArg::Verbose => if st.verbose {
            Err(CliError::UsedTwice(owned("--verbose")))
        } else {
            st.verbose = true;
            Ok(st)
        },
        _ => Err(CliError::UnknownArgument(a)),
    }
}

fn exec_project_switch_step(st: SubArgs, w: WordArg, a: String) -> (res: Result<SubArgs, CliError>)
    ensures
        res_view(res) == project_switch_step(st@, w@, a@),
{
    let mut st = st;
    match w {
        WordArg::Lib => if st.opts.library {
            Err(CliError::UsedTwice(owned("--lib")))
        } else {
            st.opts.library = true;
            Ok(st)
        },
        WordArg::Strict => if st.opts.strict {
            Err(CliError::UsedTwice(owned("--strict")))
        } else {
            st.opts.strict = true;
            Ok(st)
        },
        WordArg::C => if st.opts.is_c {
            Err(CliError::UsedTwice(owned("--c")))
        } else {
            st.opts.is_c = true;
            Ok(st)
        },
        WordArg::Clangd => if st.opts.clangd {
            Err(CliError::UsedTwice(owned("--clangd")))
        } else {
            st.opts.clangd = true;
            Ok(st)
        },
        _ => Err(CliError::UnknownArgument(a)),
    }
}

fn exec_sub_step(k: Sub, st: SubArgs, a: String) -> (res: Result<SubArgs, CliError>)
    ensures
        res_view(res) == sub_step(k, st@, a@),
{
    reveal(sub_step);
    if st.dashes {
        return exec_value_step(k, st, a);
    }
    let w = classify(a.as_str());
    let build_word = match w {
        WordArg::Debug | WordArg::Release | WordArg::Profile(_) | WordArg::Toolchain(_)
        | WordArg::Install | WordArg::Echo | WordArg::Verbose => true,
        _ => false,
    };
    let project_word = match w {
        WordArg::Lib | WordArg::Strict | WordArg::C | WordArg::Clangd => true,
        _ => false,
    };
    let builds = match k {
        Sub::Build | Sub::Run | Sub::Test => true,
        _ => false,
    };
    let projects = match k {
        Sub::New | Sub::Init => true,
        _ => false,
    };
    match w {
        WordArg::Help => Err(CliError::DisplayHelp),
        WordArg::Dashes => {
            let mut st = st;
            st.dashes = true;
            Ok(st)
        },
        WordArg::Value => exec_value_step(k, st, a),
        _ => if build_word && builds {
            exec_build_switch_step(st, w, a)
        } else if project_word && projects {
            exec_project_switch_step(st, w, a)
        } else {
            Err(CliError::UnknownArgument(a))
        },
    }
}

proof fn lemma_fold_err(k: Sub, s: Seq<Seq<char>>, i: int, n: int)
    requires
        0 <= i <= n <= s.len(),
        sub_fold(k, s.take(i)) is Err,
    ensures
        sub_fold(k, s.take(n)) == sub_fold(k, s.take(i)),
    decreases n - i,
{
    if n > i {
        lemma_fold_err(k, s, i, n - 1);
        assert(s.take(n).drop_last() =~= s.take(n - 1));
    }
}

fn exec_sub_finish(k: Sub, st: SubArgs) -> (res: Result<Action, CliError>)
    ensures
        res_view(res) == sub_finish(k, st@),
{
    let builds = match k {
        Sub::Build | Sub::Run | Sub::Test => true,
        _ => false,
    };
    if builds && st.debug && st.release {
        return Err(CliError::ArgumentConflict(owned("--debug"), owned("--release")));
    }
    if builds && st.debug && st.profile.is_some() {
        return Err(CliError::ArgumentConflict(owned("--debug"), owned("--profile")));
    }
    if builds && st.release && st.profile.is_some() {
        return Err(CliError::ArgumentConflict(owned("--release"), owned("--profile")));
    }
    let SubArgs { debug, release, profile, toolchain, install, echo, verbose, opts, values, dashes: _ } = st;
    let mut values = values;
    match k {
        Sub::New => if values.len() == 0 {
            Err(CliError::MissingRequired(owned("<NAME>")))
        } else {
            let name = values.remove(0);
            Ok(Action::New { name, opts })
        },
        Sub::Init => Ok(Action::Init { opts }),
        Sub::Help => if values.len() == 0 {
            Ok(Action::Help { action: None })
        } else {
            let topic = values.remove(0);
            Ok(Action::Help { action: Some(topic) })
        },
        Sub::Clean => Ok(Action::Clean),
        Sub::Build => Ok(
            Action::Build {
                build: BuildArgs { debug, release, profile, toolchain, install, echo, verbose },
            },
        ),
        Sub::Run => Ok(
            Action::Run {
                build: BuildArgs { debug, release, profile, toolchain, install, echo, verbose },
                args: values,
            },
        ),
        Sub::Test => Ok(
            Action::Test {
                build: BuildArgs { debug, release, profile, toolchain, install, echo, verbose },
                args: values,
            },
        ),
        Sub::Gen => if values.len() == 0 {
            Err(CliError::MissingRequired(owned("<TARGET>")))
        } else {
            Ok(Action::Gen { target: GenTarget::Clangd })
        },
        Sub::Version => Ok(Action::Version),
    }
}

/// Reads the arguments of action `k`.
fn parse_sub(k: Sub, args: Vec<String>) -> (res: Result<Action, CliError>)
    ensures
        res_view(res) == sub_spec(k, strs(args@)),
{
    let ghost s = strs(args@);
    let mut st = sub_args_start();
    let mut i: usize = 0;
    assert(s.take(0) =~= Seq::<Seq<char>>::empty());
    while i < args.len()
        invariant
            s == strs(args@),
            i <= args@.len(),
            sub_fold(k, s.take(i as int)) == Ok::<SubState, CliErr>(st@),
        decreases args@.len() - i,
    {
        let a = owned(args[i].as_str());
        assert(s.take(i + 1).drop_last() =~= s.take(i as int));
        assert(s.take(i + 1).last() == s[i as int]);
        match exec_sub_step(k, st, a) {
            Ok(next) => {
                st = next;
            },
            Err(e) => {
                proof {
                    lemma_fold_err(k, s, i + 1, s.len() as int);
                    assert(s.take(s.len() as int) =~= s);
                }
                return Err(e);
            },
        }
        i = i + 1;
    }
    assert(s.take(s.len() as int) =~= s);
    exec_sub_finish(k, st)
}

/// The command line, program name first; an empty list reads as no arguments.
pub open spec fn argv_spec(argv: Seq<Seq<char>>) -> Result<CliView, CliErr> {
    if argv.len() == 0 {
        cli_spec(argv, false)
    } else {
        cli_spec(argv.drop_first(), false)
    }
}

impl Cli {
    /// Parses a command line, program name first.
    #[verifier::loop_isolation(false)]
    pub fn try_parse_from(argv: Vec<String>) -> (res: Result<Cli, CliError>)
        ensures
            res_view(res) == argv_spec(strs(argv@)),
            res matches Ok(c) ==> c.help is None,
    {
        let ghost s = strs(argv@);
        let mut argv = argv;
        let mut i: usize = if argv.len() == 0 { 0 } else { 1 };
        let ghost start = if s.len() == 0 { s } else { s.drop_first() };
        assert(s.skip(i as int) =~= start);
        let mut version = false;
        while i < argv.len()
            invariant
                s == strs(argv@),
                i <= argv@.len(),
                argv_spec(s) == cli_spec(s.skip(i as int), version),
            decreases argv@.len() - i,
        {
            let ghost rest = s.skip(i as int);
            assert(rest[0] == s[i as int]);
            assert(s[i as int] == argv@[i as int]@);
            assert(rest.drop_first() =~= s.skip(i + 1));
            let a = argv[i].as_str();
            if str_eq(a, "-h") || str_eq(a, "--help") {
                return Err(CliError::DisplayHelp);
            } else if str_eq(a, "-v") || str_eq(a, "--version") {
                if version {
                    return Err(CliError::UsedTwice(owned("--version")));
                }
                version = true;
            } else if is_flag_like(a) {
                return Err(CliError::UnknownArgument(owned(a)));
            } else {
                match sub_from(a) {
                    None => {
                        return Err(CliError::InvalidSubcommand(owned(a)));
                    },
                    Some(k) => {
                        if version {
                            return Err(CliError::ArgumentConflict(owned("--version"), owned(a)));
                        }
                        let tail = argv.split_off(i + 1);
                        assert(strs(tail@) =~= s.skip(i + 1));
                        return match parse_sub(k, tail) {
                            Ok(act) => Ok(Cli { help: None, version: false, action: Some(act) }),
                            Err(e) => Err(e),
                        };
                    },
                }
            }
            i = i + 1;
        }
        Ok(Cli { help: None, version, action: None })
    }
}

/// What the command line asks for: the version when `-v` is given, help when nothing
/// is.
pub open spec fn action_spec(argv: Seq<Seq<char>>) -> Result<ActionView, CliErr> {
    match argv_spec(argv) {
        Ok(c) => Ok(
            if c.version {
                ActionView::Version
            } else {
                match c.action {
                    Some(a) => a,
                    None => ActionView::Help { action: None },
                }
            },
        ),
        Err(e) => Err(e),
    }
}

/// Parses the command line, program name first, into the action it asks for.
pub fn collect_args(argv: Vec<String>) -> (res: Result<Action, CliError>)
    ensures
        res_view(res) == action_spec(strs(argv@)),
{
    let cli = match Cli::try_parse_from(argv) {
        Ok(c) => c,
        Err(e) => return Err(e),
    };
    if cli.version {
        return Ok(Action::Version);
    }
    match cli.action {
        Some(a) => Ok(a),
        None => Ok(Action::Help { action: None }),
    }
}


/// One argument changes the profile flags and the `--` mark only as it names them.
proof fn lemma_step_flags(k: Sub, st0: SubState, a: Seq<char>)
    requires
        takes_build_switches(k),
    ensures
        sub_step(k, st0, a) matches Ok(st) ==> {
            &&& st.debug == (st0.debug || (!st0.dashes && word_of(a) is Debug))
            &&& st.release == (st0.release || (!st0.dashes && word_of(a) is Release))
            &&& st.dashes == (st0.dashes || a == "--"@)
        },
{
    reveal(sub_step);
    reveal_strlit("-h");
    reveal_strlit("--help");
    reveal_strlit("--");
    if a == "--"@ {
        assert(a != "-h"@) by {
            assert(a[1] != "-h"@[1]);
        }
        assert(a.len() != "--help"@.len());
    }
}

/// Some argument is `--`.
pub open spec fn has_dashes(s: Seq<Seq<char>>) -> bool {
    exists|m: int| 0 <= m < s.len() && #[trigger] s[m] == "--"@
}

proof fn lemma_has_dashes_push(t: Seq<Seq<char>>, a: Seq<char>)
    ensures
        has_dashes(t.push(a)) == (has_dashes(t) || a == "--"@),
{
    let s = t.push(a);
    if has_dashes(s) {
        let m = choose|m: int| 0 <= m < s.len() && #[trigger] s[m] == "--"@;
        if m < t.len() {
            assert(t[m] == s[m]);
        }
    }
    if has_dashes(t) {
        let m = choose|m: int| 0 <= m < t.len() && #[trigger] t[m] == "--"@;
        assert(s[m] == t[m]);
    }
    if a == "--"@ {
        assert(s[t.len() as int] == a);
    }
}

/// Reading arguments of a build action remembers `--debug` and `--release` given before
/// any `--`, and `--` itself.
proof fn lemma_fold_remembers(k: Sub, s: Seq<Seq<char>>)
    requires
        takes_build_switches(k),
    ensures
        sub_fold(k, s) matches Ok(st) ==> {
            &&& st.dashes == has_dashes(s)
            &&& forall|j: int|
                0 <= j < s.len() && !has_dashes(#[trigger] s.take(j)) ==> (word_of(s[j]) is Debug
                    ==> st.debug) && (word_of(s[j]) is Release ==> st.release)
        },
    decreases s.len(),
{
    if s.len() > 0 {
        let t = s.drop_last();
        let a = s.last();
        assert(s =~= t.push(a));
        lemma_fold_remembers(k, t);
        lemma_has_dashes_push(t, a);
        if let Ok(st0) = sub_fold(k, t) {
            lemma_step_flags(k, st0, a);
            if let Ok(st) = sub_step(k, st0, a) {
                assert forall|j: int|
                    0 <= j < s.len() && !has_dashes(#[trigger] s.take(j)) implies (word_of(s[j])
                    is Debug ==> st.debug) && (word_of(s[j]) is Release ==> st.release) by {
                    if j < s.len() - 1 {
                        assert(s.take(j) =~= t.take(j));
                        assert(t[j] == s[j]);
                    } else {
                        assert(s.take(j) =~= t);
                    }
                }
            }
        }
    }
}

/// The spellings of the two profile flags are read as those flags.
proof fn lemma_profile_words(a: Seq<char>)
    ensures
        (a == "-d"@ || a == "--debug"@) ==> word_of(a) is Debug,
        (a == "-r"@ || a == "--release"@) ==> word_of(a) is Release,
        (a == "-d"@ || a == "--debug"@ || a == "-r"@ || a == "--release"@) ==> a != "--"@,
{
    reveal_strlit("-h");
    reveal_strlit("--help");
    reveal_strlit("--");
    reveal_strlit("-d");
    reveal_strlit("--debug");
    reveal_strlit("-r");
    reveal_strlit("--release");
    assert("-d"@ != "-h"@) by { assert("-d"@[1] != "-h"@[1]); }
    assert("-d"@ != "--"@) by { assert("-d"@[1] != "--"@[1]); }
    assert("-r"@ != "-h"@) by { assert("-r"@[1] != "-h"@[1]); }
    assert("-r"@ != "--"@) by { assert("-r"@[1] != "--"@[1]); }
    assert("-r"@ != "-d"@) by { assert("-r"@[1] != "-d"@[1]); }
    assert("--debug"@ != "--help"@) by { assert("--debug"@.len() != "--help"@.len()); }
    assert("--release"@ != "--help"@) by { assert("--release"@.len() != "--help"@.len()); }
    assert("--release"@ != "--debug"@) by { assert("--release"@.len() != "--debug"@.len()); }
}

/// The build, run and test actions refuse to be asked for the debug and the release
/// profile at once (switches given before any `--`).
pub proof fn law_cli_debug_release_conflict(argv: Seq<Seq<char>>, i: int, j: int)
    requires
        argv.len() > 2,
        argv[1] == "build"@ || argv[1] == "b"@ || argv[1] == "run"@ || argv[1] == "r"@
            || argv[1] == "test"@ || argv[1] == "t"@,
        2 <= i < argv.len(),
        2 <= j < argv.len(),
        argv[i] == "-d"@ || argv[i] == "--debug"@,
        argv[j] == "-r"@ || argv[j] == "--release"@,
        forall|m: int| 2 <= m < i || 2 <= m < j ==> argv[m] != "--"@,
    ensures
        argv_spec(argv) is Err,
{
    reveal_strlit("-h");
    reveal_strlit("--help");
    reveal_strlit("-v");
    reveal_strlit("--version");
    reveal_strlit("new");
    reveal_strlit("init");
    reveal_strlit("help");
    reveal_strlit("clean");
    reveal_strlit("c");
    reveal_strlit("build");
    reveal_strlit("b");
    reveal_strlit("run");
    reveal_strlit("r");
    reveal_strlit("test");
    reveal_strlit("t");
    let a = argv[1];
    assert(!flag_like(a));
    assert("b"@ != "c"@) by { assert("b"@[0] != "c"@[0]); }
    assert("r"@ != "c"@) by { assert("r"@[0] != "c"@[0]); }
    assert("t"@ != "c"@) by { assert("t"@[0] != "c"@[0]); }
    assert("r"@ != "b"@) by { assert("r"@[0] != "b"@[0]); }
    assert("t"@ != "b"@) by { assert("t"@[0] != "b"@[0]); }
    assert("t"@ != "r"@) by { assert("t"@[0] != "r"@[0]); }
    assert("run"@ != "new"@) by { assert("run"@[0] != "new"@[0]); }
    assert("test"@ != "init"@) by { assert("test"@[0] != "init"@[0]); }
    assert("test"@ != "help"@) by { assert("test"@[0] != "help"@[0]); }
    assert("build"@ != "clean"@) by { assert("build"@[0] != "clean"@[0]); }
    let k = sub_of(a).unwrap();
    assert(takes_build_switches(k));
    let s = argv.drop_first().drop_first();
    assert(argv.drop_first()[0] == a);
    lemma_fold_remembers(k, s);
    lemma_profile_words(argv[i]);
    lemma_profile_words(argv[j]);
    assert(s[i - 2] == argv[i]);
    assert(s[j - 2] == argv[j]);
    assert(!has_dashes(s.take(i - 2))) by {
        if has_dashes(s.take(i - 2)) {
            let m = choose|m: int| 0 <= m < i - 2 && #[trigger] s.take(i - 2)[m] == "--"@;
            assert(s.take(i - 2)[m] == argv[m + 2]);
        }
    }
    assert(!has_dashes(s.take(j - 2))) by {
        if has_dashes(s.take(j - 2)) {
            let m = choose|m: int| 0 <= m < j - 2 && #[trigger] s.take(j - 2)[m] == "--"@;
            assert(s.take(j - 2)[m] == argv[m + 2]);
        }
    }
}


/// After `--`, each argument of `run` is kept as it is, in order.
proof fn lemma_run_after_dashes(xs: Seq<Seq<char>>, n: int)
    requires
        0 <= n <= xs.len(),
    ensures
        sub_fold(Sub::Run, seq!["--"@] + xs.take(n)) == Ok::<SubState, CliErr>(
            SubState { dashes: true, values: xs.take(n), ..sub_start() },
        ),
    decreases n,
{
    reveal(sub_step);
    let s = seq!["--"@] + xs.take(n);
    if n == 0 {
        reveal_strlit("-h");
        reveal_strlit("--help");
        reveal_strlit("--");
        assert("--"@ != "-h"@) by { assert("--"@[1] != "-h"@[1]); }
        assert(s.drop_last() =~= Seq::<Seq<char>>::empty());
        assert(s.last() == "--"@);
        assert(xs.take(0) =~= Seq::<Seq<char>>::empty());
        assert(sub_start().values =~= xs.take(0));
        assert(sub_fold(Sub::Run, s.drop_last()) == Ok::<SubState, CliErr>(sub_start()));
        assert(word_of("--"@) is Dashes);
        assert(sub_step(Sub::Run, sub_start(), "--"@) == Ok::<SubState, CliErr>(
            SubState { dashes: true, ..sub_start() },
        ));
    } else {
        lemma_run_after_dashes(xs, n - 1);
        assert(s.drop_last() =~= seq!["--"@] + xs.take(n - 1));
        assert(s.last() == xs[n - 1]);
        assert(xs.take(n - 1).push(xs[n - 1]) =~= xs.take(n));
        let st = SubState { dashes: true, values: xs.take(n - 1), ..sub_start() };
        assert(sub_fold(Sub::Run, s.drop_last()) == Ok::<SubState, CliErr>(st));
        assert(sub_step(Sub::Run, st, xs[n - 1]) == Ok::<SubState, CliErr>(
            SubState { values: st.values.push(xs[n - 1]), ..st },
        ));
    }
}

/// `run` hands every argument after `--` to the program, unchanged and in order, and
/// builds with the default switches.
pub proof fn law_cli_run_forwards_args(program: Seq<char>, xs: Seq<Seq<char>>)
    ensures
        action_spec(seq![program, "run"@, "--"@] + xs) == Ok::<ActionView, CliErr>(
            ActionView::Run { build: build_args_of(sub_start()), args: xs },
        ),
{
    reveal_strlit("-h");
    reveal_strlit("--help");
    reveal_strlit("-v");
    reveal_strlit("--version");
    reveal_strlit("new");
    reveal_strlit("init");
    reveal_strlit("help");
    reveal_strlit("clean");
    reveal_strlit("c");
    reveal_strlit("build");
    reveal_strlit("b");
    reveal_strlit("run");
    let argv = seq![program, "run"@, "--"@] + xs;
    let s = argv.drop_first();
    assert(s[0] == "run"@);
    assert(!flag_like("run"@));
    assert("run"@ != "new"@) by { assert("run"@[0] != "new"@[0]); }
    assert(sub_of("run"@) == Some(Sub::Run));
    assert(s.drop_first() =~= seq!["--"@] + xs.take(xs.len() as int));
    lemma_run_after_dashes(xs, xs.len() as int);
    assert(xs.take(xs.len() as int) =~= xs);
}

/// The spellings of the project switches are read as those switches.
proof fn lemma_project_words(a: Seq<char>)
    ensures
        a == "--lib"@ ==> word_of(a) is Lib,
        a == "--strict"@ ==> word_of(a) is Strict,
        a == "--c"@ ==> word_of(a) is C,
        a == "--clangd"@ ==> word_of(a) is Clangd,
{
    reveal_strlit("-h");
    reveal_strlit("--help");
    reveal_strlit("--");
    reveal_strlit("-d");
    reveal_strlit("--debug");
    reveal_strlit("-r");
    reveal_strlit("--release");
    reveal_strlit("--profile=");
    reveal_strlit("-p=");
    reveal_strlit("--toolchain=");
    reveal_strlit("-t=");
    reveal_strlit("--install");
    reveal_strlit("--echo");
    reveal_strlit("-v");
    reveal_strlit("--verbose");
    reveal_strlit("--lib");
    reveal_strlit("--strict");
    reveal_strlit("--c");
    reveal_strlit("--clangd");
    if a == "--lib"@ || a == "--strict"@ || a == "--c"@ || a == "--clangd"@ {
        assert(a[1] == '-');
        assert(!has_prefix(a, "-p="@)) by {
            if has_prefix(a, "-p="@) {
                assert(a.take(3)[1] == "-p="@[1]);
            }
        }
        assert(!has_prefix(a, "-t="@)) by {
            if has_prefix(a, "-t="@) {
                assert(a.take(3)[1] == "-t="@[1]);
            }
        }
        assert(!has_prefix(a, "--profile="@)) by {
            if has_prefix(a, "--profile="@) {
                assert(a.take(10)[2] == "--profile="@[2]);
            }
        }
        assert(!has_prefix(a, "--toolchain="@)) by {
            if has_prefix(a, "--toolchain="@) {
                assert(a.take(12)[2] == "--toolchain="@[2]);
            }
        }
    }
    if a == "--lib"@ {
        assert(a != "--help"@) by { assert(a[2] != "--help"@[2]); }
        assert(a != "--echo"@) by { assert(a[2] != "--echo"@[2]); }
    }
    if a == "--c"@ {
        assert(a != "--lib"@ && a != "--strict"@);
    }
    if a == "--clangd"@ {
        assert(a != "--strict"@) by { assert(a[2] != "--strict"@[2]); }
        assert(a != "--help"@) by { assert(a[2] != "--help"@[2]); }
        assert(a != "--debug"@) by { assert(a[2] != "--debug"@[2]); }
    }
    if a == "--strict"@ {
        assert(a != "--install"@) by { assert(a.len() != "--install"@.len()); }
        assert(a != "--release"@) by { assert(a[2] != "--release"@[2]); }
        assert(a != "--verbose"@) by { assert(a[2] != "--verbose"@[2]); }
    }
}

/// One argument of `new` or `init` changes the project choices and the `--` mark only
/// as it names them.
proof fn lemma_step_opts(k: Sub, st0: SubState, a: Seq<char>)
    requires
        takes_project_switches(k),
    ensures
        sub_step(k, st0, a) matches Ok(st) ==> {
            &&& st.opts.library == (st0.opts.library || (!st0.dashes && word_of(a) is Lib))
            &&& st.opts.strict == (st0.opts.strict || (!st0.dashes && word_of(a) is Strict))
            &&& st.opts.is_c == (st0.opts.is_c || (!st0.dashes && word_of(a) is C))
            &&& st.opts.clangd == (st0.opts.clangd || (!st0.dashes && word_of(a) is Clangd))
            &&& st.dashes == (st0.dashes || a == "--"@)
        },
{
    reveal(sub_step);
    reveal_strlit("-h");
    reveal_strlit("--help");
    reveal_strlit("--");
    if a == "--"@ {
        assert(a != "-h"@) by {
            assert(a[1] != "-h"@[1]);
        }
        assert(a.len() != "--help"@.len());
    }
}

/// Reading the arguments of `new` or `init` remembers each project switch given before
/// any `--`, and `--` itself.
proof fn lemma_fold_opts(k: Sub, s: Seq<Seq<char>>)
    requires
        takes_project_switches(k),
    ensures
        sub_fold(k, s) matches Ok(st) ==> {
            &&& st.dashes == has_dashes(s)
            &&& forall|j: int|
                0 <= j < s.len() && !has_dashes(#[trigger] s.take(j)) ==> switch_kept(st.opts, word_of(s[j]))
        },
    decreases s.len(),
{
    if s.len() > 0 {
        let t = s.drop_last();
        let a = s.last();
        assert(s =~= t.push(a));
        lemma_fold_opts(k, t);
        lemma_has_dashes_push(t, a);
        if let Ok(st0) = sub_fold(k, t) {
            lemma_step_opts(k, st0, a);
            if let Ok(st) = sub_step(k, st0, a) {
                assert forall|j: int|
                    0 <= j < s.len() && !has_dashes(#[trigger] s.take(j)) implies switch_kept(st.opts, word_of(s[j])) by {
                    if j < s.len() - 1 {
                        assert(s.take(j) =~= t.take(j));
                        assert(t[j] == s[j]);
                    } else {
                        assert(s.take(j) =~= t);
                    }
                }
            }
        }
    }
}

/// The choice a project switch names is made in `o`.
pub open spec fn switch_kept(o: ProjectOpts, w: Word) -> bool {
    &&& (w is Lib ==> o.library)
    &&& (w is Strict ==> o.strict)
    &&& (w is C ==> o.is_c)
    &&& (w is Clangd ==> o.clangd)
}

/// The project choices an action carries, if it creates a project.
pub open spec fn project_opts(r: Result<CliView, CliErr>) -> Option<ProjectOpts> {
    match r {
        Ok(c) => match c.action {
            Some(ActionView::New { opts, .. }) => Some(opts),
            Some(ActionView::Init { opts }) => Some(opts),
            _ => None,
        },
        Err(_) => None,
    }
}

/// The choice a switch spelled `a` asks for is made in `o`.
pub open spec fn switch_honoured(o: ProjectOpts, a: Seq<char>) -> bool {
    &&& (a == "--lib"@ ==> o.library)
    &&& (a == "--strict"@ ==> o.strict)
    &&& (a == "--c"@ ==> o.is_c)
    &&& (a == "--clangd"@ ==> o.clangd)
}

/// `new` and `init` honour each project switch (`--lib`, `--strict`, `--c`,
/// `--clangd`) given before any `--`: when the command line is accepted, the project
/// is created with that choice made.
pub proof fn law_cli_project_switches(argv: Seq<Seq<char>>, i: int)
    requires
        argv.len() > 2,
        argv[1] == "new"@ || argv[1] == "init"@,
        2 <= i < argv.len(),
        forall|m: int| 2 <= m < i ==> argv[m] != "--"@,
    ensures
        argv_spec(argv) is Ok ==> (project_opts(argv_spec(argv)) matches Some(o) && switch_honoured(
            o,
            argv[i],
        )),
{
    reveal_strlit("-h");
    reveal_strlit("--help");
    reveal_strlit("-v");
    reveal_strlit("--version");
    reveal_strlit("new");
    reveal_strlit("init");
    let a = argv[1];
    assert(!flag_like(a));
    assert(a != "-h"@ && a != "--help"@ && a != "-v"@ && a != "--version"@);
    let k = sub_of(a).unwrap();
    assert(takes_project_switches(k));
    let s = argv.drop_first().drop_first();
    assert(argv.drop_first()[0] == a);
    assert(argv.drop_first().drop_first() =~= s);
    lemma_fold_opts(k, s);
    lemma_project_words(argv[i]);
    assert(s[i - 2] == argv[i]);
    assert(!has_dashes(s.take(i - 2))) by {
        if has_dashes(s.take(i - 2)) {
            let m = choose|m: int| 0 <= m < i - 2 && #[trigger] s.take(i - 2)[m] == "--"@;
            assert(s.take(i - 2)[m] == argv[m + 2]);
        }
    }
}

/// `new` with one project switch and a name creates a project of that name with that
/// choice made and no other.
pub proof fn law_cli_new_with_switch(program: Seq<char>, switch: Seq<char>, name: Seq<char>)
    requires
        switch == "--lib"@ || switch == "--strict"@ || switch == "--c"@ || switch == "--clangd"@,
        word_of(name) is Value,
    ensures
        argv_spec(seq![program, "new"@, switch, name]) == Ok::<CliView, CliErr>(
            CliView {
                version: false,
                action: Some(
                    ActionView::New {
                        name,
                        opts: ProjectOpts {
                            library: switch == "--lib"@,
                            strict: switch == "--strict"@,
                            is_c: switch == "--c"@,
                            clangd: switch == "--clangd"@,
                        },
                    },
                ),
            },
        ),
{
    reveal(sub_step);
    reveal_strlit("-h");
    reveal_strlit("--help");
    reveal_strlit("-v");
    reveal_strlit("--version");
    reveal_strlit("new");
    reveal_strlit("--lib");
    reveal_strlit("--strict");
    reveal_strlit("--c");
    reveal_strlit("--clangd");
    reveal_strlit("--");
    lemma_project_words(switch);
    let argv = seq![program, "new"@, switch, name];
    let s = argv.drop_first();
    assert(s[0] == "new"@);
    assert(!flag_like("new"@));
    assert(sub_of("new"@) == Some(Sub::New));
    let t = s.drop_first();
    assert(t =~= seq![switch, name]);
    assert(t.drop_last() =~= seq![switch]);
    assert(seq![switch].drop_last() =~= Seq::<Seq<char>>::empty());
    assert("--c"@ != "--lib"@ && "--c"@ != "--strict"@ && "--c"@ != "--clangd"@) by {
        assert("--c"@.len() != "--lib"@.len());
        assert("--c"@.len() != "--strict"@.len());
        assert("--c"@.len() != "--clangd"@.len());
    }
    assert("--lib"@ != "--strict"@ && "--lib"@ != "--clangd"@) by {
        assert("--lib"@.len() != "--strict"@.len());
        assert("--lib"@[2] != "--clangd"@[2]);
    }
    assert("--strict"@ != "--clangd"@) by {
        assert("--strict"@[2] != "--clangd"@[2]);
    }
    let st1 = sub_step(Sub::New, sub_start(), switch);
    assert(sub_fold(Sub::New, Seq::<Seq<char>>::empty()) == Ok::<SubState, CliErr>(sub_start()));
    assert(seq![switch].last() == switch);
    assert(sub_fold(Sub::New, seq![switch]) == st1);
    assert(st1 matches Ok(st) && st.opts == (ProjectOpts {
        library: switch == "--lib"@,
        strict: switch == "--strict"@,
        is_c: switch == "--c"@,
        clangd: switch == "--clangd"@,
    }) && st.values.len() == 0 && !st.dashes);
}

} // verus!
