//! The hand-written command line grammar: an action word followed by switches that
//! may stand in any order. Each switch is taken at its first occurrence; what is left
//! over is refused.
use vstd::prelude::*;
use crate::config::elems::profile_from_name;
use crate::config::{Platform, Profile, ProfileView};
use crate::error::Error;
use crate::text::{
    has_prefix, lower_seq, opt_str, owned, starts_with, str_eq, strip_prefix, strs, to_ascii_lowercase,
};

verus! {

/// The toolchains this grammar can select.
#[derive(Debug, Clone, Copy, PartialEq, Eq, Structural)]
pub enum ToolChain {
    Msvc,
    Gcc,
    ClangGnu,
    ClangMsvc,
    Zig,
}

/// The toolchain a host uses when the command line names none.
pub open spec fn host_toolchain(host: Platform) -> ToolChain {
    match host {
        Platform::Windows => ToolChain::Msvc,
        Platform::Linux => ToolChain::Gcc,
        Platform::Macos => ToolChain::ClangGnu,
    }
}

impl ToolChain {
    pub fn host_default(host: Platform) -> (res: ToolChain)
        ensures
            res == host_toolchain(host),
    {
        match host {
            Platform::Windows => ToolChain::Msvc,
            Platform::Linux => ToolChain::Gcc,
            Platform::Macos => ToolChain::ClangGnu,
        }
    }
}

/// The switches shared by the build, run and test actions.
#[derive(Debug, Clone, PartialEq, Eq)]
pub struct BuildSwitches {
    pub profile: Profile,
    pub toolchain: ToolChain,
    pub install: bool,
    pub echo: bool,
    pub verbose: bool,
    pub is_test: bool,
}

pub struct SwitchesView {
    pub profile: ProfileView,
    pub toolchain: ToolChain,
    pub install: bool,
    pub echo: bool,
    pub verbose: bool,
    pub is_test: bool,
}

impl View for BuildSwitches {
    type V = SwitchesView;

    open spec fn view(&self) -> SwitchesView {
        SwitchesView {
            profile: self.profile@,
            toolchain: self.toolchain,
            install: self.install,
            echo: self.echo,
            verbose: self.verbose,
            is_test: self.is_test,
        }
    }
}

impl BuildSwitches {
    /// The switches when none are given on `host`: the debug profile, the host's own
    /// toolchain, every flag off.
    pub fn default_for(host: Platform) -> (res: BuildSwitches)
        ensures
            res@ == (SwitchesView {
                profile: ProfileView::Debug,
                toolchain: host_toolchain(host),
                install: false,
                echo: false,
                verbose: false,
                is_test: false,
            }),
    {
        BuildSwitches {
            profile: Profile::Debug,
            toolchain: ToolChain::host_default(host),
            install: false,
            echo: false,
            verbose: false,
            is_test: false,
        }
    }
}

impl Default for BuildSwitches {
    /// The switches when none are given on a Linux host (`default` takes no host; the
    /// default of another host is `default_for`): the debug profile, GCC, every flag
    /// off.
    fn default() -> (res: BuildSwitches)
        ensures
            res@ == (SwitchesView {
                profile: ProfileView::Debug,
                toolchain: ToolChain::Gcc,
                install: false,
                echo: false,
                verbose: false,
                is_test: false,
            }),
    {
        BuildSwitches {
            profile: Profile::Debug,
            toolchain: ToolChain::Gcc,
            install: false,
            echo: false,
            verbose: false,
            is_test: false,
        }
    }
}

/// What the command line asks for.
#[derive(Debug, Clone, PartialEq, Eq)]
pub enum Action {
    New { library: bool, is_c: bool, clangd: bool, name: String },
    Init { library: bool, is_c: bool, clangd: bool },
    Clean,
    Clangd,
    Gen { target: String },
    Build { switches: BuildSwitches },
    Run { switches: BuildSwitches, args: Vec<String> },
    Test { switches: BuildSwitches, args: Vec<String> },
    Help { action: Option<String> },
}

pub enum ActionView {
    New { library: bool, is_c: bool, clangd: bool, name: Seq<char> },
    Init { library: bool, is_c: bool, clangd: bool },
    Clean,
    Clangd,
    Gen { target: Seq<char> },
    Build { switches: SwitchesView },
    Run { switches: SwitchesView, args: Seq<Seq<char>> },
    Test { switches: SwitchesView, args: Seq<Seq<char>> },
    Help { action: Option<Seq<char>> },
}


impl View for Action {
    type V = ActionView;

    open spec fn view(&self) -> ActionView {
        match self {
            Action::New { library, is_c, clangd, name } => ActionView::New {
                library: *library,
                is_c: *is_c,
                clangd: *clangd,
                name: name@,
            },
            Action::Init { library, is_c, clangd } => ActionView::Init {
                library: *library,
                is_c: *is_c,
                clangd: *clangd,
            },
            Action::Clean => ActionView::Clean,
            Action::Clangd => ActionView::Clangd,
            Action::Gen { target } => ActionView::Gen { target: target@ },
            Action::Build { switches } => ActionView::Build { switches: switches@ },
            Action::Run { switches, args } => ActionView::Run {
                switches: switches@,
                args: strs(args@),
            },
            Action::Test { switches, args } => ActionView::Test {
                switches: switches@,
                args: strs(args@),
            },
            Action::Help { action } => ActionView::Help { action: opt_str(*action) },
        }
    }
}

/// The ways a command line is refused.
pub enum ArgError {
    BadAction(Seq<char>),
    ExtraArgs(Seq<char>, Seq<Seq<char>>),
    MsvcUnavailable,
    UnknownToolChain(Seq<char>),
}

/// `e` is the error `v` describes.
pub open spec fn reports(e: Error, v: ArgError) -> bool {
    match v {
        ArgError::BadAction(a) => e matches Error::BadAction(s) && s@ == a,
        ArgError::ExtraArgs(c, r) => e matches Error::ExtraArgs(s, rest) && s@ == c && strs(rest@)
            == r,
        ArgError::MsvcUnavailable => e is MsvcUnavailable,
        ArgError::UnknownToolChain(t) => e matches Error::UnknownToolChain(s) && s@ == t,
    }
}

/// The outcome `res` is the one `spec` describes.
pub open spec fn outcome<T: View>(res: Result<T, Error>, spec: Result<T::V, ArgError>) -> bool {
    match (res, spec) {
        (Ok(a), Ok(v)) => a@ == v,
        (Err(e), Err(v)) => reports(e, v),
        _ => false,
    }
}

/// Which arguments a switch takes: those equal to one of two spellings, or those that
/// begin with one of two spellings.
pub enum Pat {
    Exact(Seq<char>, Seq<char>),
    Prefix(Seq<char>, Seq<char>),
}

pub open spec fn fits(s: Seq<char>, p: Pat) -> bool {
    match p {
        Pat::Exact(a, b) => s == a || s == b,
        Pat::Prefix(a, b) => has_prefix(s, a) || has_prefix(s, b),
    }
}

/// The index of the first argument that fits `p`, or the length when none does.
pub open spec fn first_fit(s: Seq<Seq<char>>, p: Pat) -> nat
    decreases s.len(),
{
    if s.len() == 0 {
        0
    } else if fits(s[0], p) {
        0
    } else {
        1 + first_fit(s.drop_first(), p)
    }
}

/// The first argument that fits `p`, and the arguments without it.
pub open spec fn take_fit(s: Seq<Seq<char>>, p: Pat) -> (Option<Seq<char>>, Seq<Seq<char>>) {
    let i = first_fit(s, p);
    if i < s.len() {
        (Some(s[i as int]), s.remove(i as int))
    } else {
        (None, s)
    }
}

/// The first argument matching a pattern is the one before which none matches.
pub proof fn lemma_first_fit(s: Seq<Seq<char>>, p: Pat, i: int)
    requires
        0 <= i <= s.len(),
        forall|j: int| 0 <= j < i ==> !fits(#[trigger] s[j], p),
        i == s.len() || fits(s[i], p),
    ensures
        first_fit(s, p) == i,
    decreases i,
{
    if i > 0 {
        let t = s.drop_first();
        assert forall|j: int| 0 <= j < i - 1 implies !fits(#[trigger] t[j], p) by {
            assert(t[j] == s[j + 1]);
        }
        if i < s.len() {
            assert(t[i - 1] == s[i]);
        }
        lemma_first_fit(t, p, i - 1);
    }
}

/// `first_fit` points at the first fitting argument, and past the end when none fits.
pub proof fn lemma_first_fit_props(s: Seq<Seq<char>>, p: Pat)
    ensures
        first_fit(s, p) <= s.len(),
        first_fit(s, p) < s.len() ==> fits(s[first_fit(s, p) as int], p),
        forall|j: int| 0 <= j < first_fit(s, p) ==> !fits(#[trigger] s[j], p),
    decreases s.len(),
{
    if s.len() > 0 && !fits(s[0], p) {
        let t = s.drop_first();
        lemma_first_fit_props(t, p);
        assert forall|j: int| 0 <= j < first_fit(s, p) implies !fits(#[trigger] s[j], p) by {
            if j > 0 {
                assert(s[j] == t[j - 1]);
            }
        }
        if first_fit(s, p) < s.len() {
            assert(s[first_fit(s, p) as int] == t[first_fit(t, p) as int]);
        }
    }
}

pub open spec fn pat_of(a: Seq<char>, b: Seq<char>, prefix: bool) -> Pat {
    if prefix {
        Pat::Prefix(a, b)
    } else {
        Pat::Exact(a, b)
    }
}

/// Removes and returns the first argument that fits the switch.
fn take_switch(args: &mut Vec<String>, a: &str, b: &str, prefix: bool) -> (res: Option<String>)
    ensures
        opt_str(res) == take_fit(strs(old(args)@), pat_of(a@, b@, prefix)).0,
        strs(final(args)@) == take_fit(strs(old(args)@), pat_of(a@, b@, prefix)).1,
{
    let ghost p = pat_of(a@, b@, prefix);
    let ghost s0 = strs(args@);
    let mut i: usize = 0;
    while i < args.len()
        invariant
            s0 == strs(args@),
            s0 == strs(old(args)@),
            p == pat_of(a@, b@, prefix),
            i <= args@.len(),
            forall|j: int| 0 <= j < i ==> !fits(#[trigger] s0[j], p),
        decreases args@.len() - i,
    {
        let hit = if prefix {
            starts_with(args[i].as_str(), a) || starts_with(args[i].as_str(), b)
        } else {
            str_eq(args[i].as_str(), a) || str_eq(args[i].as_str(), b)
        };
        assert(s0[i as int] == args@[i as int]@);
        if hit {
            proof {
                lemma_first_fit(s0, p, i as int);
            }
            let s = args.remove(i);
            assert(strs(args@) =~= s0.remove(i as int));
            return Some(s);
        }
        i = i + 1;
    }
    proof {
        lemma_first_fit(s0, p, i as int);
    }
    None
}

/// The toolchain a `--toolchain=` or `-t=` argument selects on `host`.
pub open spec fn toolchain_spec(t: Option<Seq<char>>, host: Platform) -> Result<ToolChain, ArgError> {
    match t {
        None => Ok(host_toolchain(host)),
        Some(v) => {
            let name = lower_seq(
                if has_prefix(v, "-t="@) {
                    v.skip("-t="@.len() as int)
                } else {
                    v.skip("--toolchain="@.len() as int)
                },
            );
            if name == "msvc"@ {
                if host == Platform::Windows {
                    Ok(ToolChain::Msvc)
                } else {
                    Err(ArgError::MsvcUnavailable)
                }
            } else if name == "gcc"@ {
                Ok(ToolChain::Gcc)
            } else if name == "clang"@ {
                if host == Platform::Windows {
                    Ok(ToolChain::ClangMsvc)
                } else {
                    Ok(ToolChain::ClangGnu)
                }
            } else if name == "clang-gnu"@ {
                Ok(ToolChain::ClangGnu)
            } else if name == "clang-msvc"@ {
                if host == Platform::Windows {
                    Ok(ToolChain::ClangMsvc)
                } else {
                    Err(ArgError::MsvcUnavailable)
                }
            } else if name == "zig"@ {
                Ok(ToolChain::Zig)
            } else {
                Err(ArgError::UnknownToolChain(name))
            }
        },
    }
}

/// Reads the toolchain switch, if one was given.
pub fn parse_toolchain(toolchain: Option<String>, host: Platform) -> (res: Result<ToolChain, Error>)
    requires
        toolchain matches Some(t) ==> has_prefix(t@, "-t="@) || has_prefix(t@, "--toolchain="@),
    ensures
        match (res, toolchain_spec(opt_str(toolchain), host)) {
            (Ok(a), Ok(b)) => a == b,
            (Err(e), Err(v)) => reports(e, v),
            _ => false,
        },
{
    match toolchain {
        None => Ok(ToolChain::host_default(host)),
        Some(tc) => {
            let tc = match strip_prefix(tc.as_str(), "-t=") {
                Some(rest) => to_ascii_lowercase(rest.as_str()),
                None => match strip_prefix(tc.as_str(), "--toolchain=") {
                    Some(rest) => to_ascii_lowercase(rest.as_str()),
                    None => to_ascii_lowercase(tc.as_str()),
                },
            };
            let windows = host == Platform::Windows;
            if str_eq(tc.as_str(), "msvc") {
                if windows {
                    Ok(ToolChain::Msvc)
                } else {
                    Err(Error::MsvcUnavailable)
                }
            } else if str_eq(tc.as_str(), "gcc") {
                Ok(ToolChain::Gcc)
            } else if str_eq(tc.as_str(), "clang") {
                if windows {
                    Ok(ToolChain::ClangMsvc)
                } else {
                    Ok(ToolChain::ClangGnu)
                }
            } else if str_eq(tc.as_str(), "clang-gnu") {
                Ok(ToolChain::ClangGnu)
            } else if str_eq(tc.as_str(), "clang-msvc") {
                if windows {
                    Ok(ToolChain::ClangMsvc)
                } else {
                    Err(Error::MsvcUnavailable)
                }
            } else if str_eq(tc.as_str(), "zig") {
                Ok(ToolChain::Zig)
            } else {
                Err(Error::UnknownToolChain(tc))
            }
        },
    }
}


/// The toolchain a `--toolchain` value names on `host`, compared without regard to
/// ASCII case: on Windows `clang` is the MSVC-compatible Clang, elsewhere the GNU one,
/// and the MSVC toolchains exist only on Windows.
pub open spec fn valid_toolchain_spec(tc: Seq<char>, host: Platform) -> Result<ToolChain, ArgError> {
    let t = lower_seq(tc);
    if host == Platform::Windows {
        if t == "msvc"@ {
            Ok(ToolChain::Msvc)
        } else if t == "clang"@ || t == "clang-msvc"@ {
            Ok(ToolChain::ClangMsvc)
        } else if t == "clang-gnu"@ {
            Ok(ToolChain::ClangGnu)
        } else if t == "gcc"@ {
            Ok(ToolChain::Gcc)
        } else if t == "zig"@ {
            Ok(ToolChain::Zig)
        } else {
            Err(ArgError::UnknownToolChain(t))
        }
    } else {
        if t == "msvc"@ || t == "clang-msvc"@ {
            Err(ArgError::MsvcUnavailable)
        } else if t == "clang"@ || t == "clang-gnu"@ {
            Ok(ToolChain::ClangGnu)
        } else if t == "gcc"@ {
            Ok(ToolChain::Gcc)
        } else if t == "zig"@ {
            Ok(ToolChain::Zig)
        } else {
            Err(ArgError::UnknownToolChain(t))
        }
    }
}

/// Reads a `--toolchain` value.
pub fn valid_toolchain(tc: &str, host: Platform) -> (res: Result<ToolChain, Error>)
    ensures
        match (res, valid_toolchain_spec(tc@, host)) {
            (Ok(a), Ok(b)) => a == b,
            (Err(e), Err(v)) => reports(e, v),
            _ => false,
        },
{
    let t = to_ascii_lowercase(tc);
    let s = t.as_str();
    if host == Platform::Windows {
        if str_eq(s, "msvc") {
            Ok(ToolChain::Msvc)
        } else if str_eq(s, "clang") || str_eq(s, "clang-msvc") {
            Ok(ToolChain::ClangMsvc)
        } else if str_eq(s, "clang-gnu") {
            Ok(ToolChain::ClangGnu)
        } else if str_eq(s, "gcc") {
            Ok(ToolChain::Gcc)
        } else if str_eq(s, "zig") {
            Ok(ToolChain::Zig)
        } else {
            Err(Error::UnknownToolChain(owned(s)))
        }
    } else {
        if str_eq(s, "msvc") || str_eq(s, "clang-msvc") {
            Err(Error::MsvcUnavailable)
        } else if str_eq(s, "clang") || str_eq(s, "clang-gnu") {
            Ok(ToolChain::ClangGnu)
        } else if str_eq(s, "gcc") {
            Ok(ToolChain::Gcc)
        } else if str_eq(s, "zig") {
            Ok(ToolChain::Zig)
        } else {
            Err(Error::UnknownToolChain(owned(s)))
        }
    }
}

/// The profile the profile switches select, `--debug` and `--release` counting as
/// flags and `p` being the `--profile=` argument, if any.
pub open spec fn profile_spec(p: Option<Seq<char>>, debug: bool, release: bool) -> Result<
    ProfileView,
    ArgError,
> {
    if debug && release {
        Err(ArgError::ExtraArgs("build"@, seq!["--release"@]))
    } else {
        match p {
            Some(v) => if debug {
                Err(ArgError::ExtraArgs("build"@, seq!["--debug"@]))
            } else if release {
                Err(ArgError::ExtraArgs("build"@, seq!["--release"@]))
            } else {
                Ok(profile_from_name(v.skip("--profile="@.len() as int)))
            },
            None => if release {
                Ok(ProfileView::Release)
            } else {
                Ok(ProfileView::Debug)
            },
        }
    }
}

fn single_arg_error(cmd: &str, arg: &str) -> (res: Error)
    ensures
        reports(res, ArgError::ExtraArgs(cmd@, seq![arg@])),
{
    let mut v: Vec<String> = Vec::new();
    v.push(owned(arg));
    assert(strs(v@) =~= seq![arg@]);
    Error::ExtraArgs(owned(cmd), v)
}

/// Reads the profile from the profile switches.
pub fn parse_profile(profile: Option<String>, debug: bool, release: bool) -> (res: Result<
    Profile,
    Error,
>)
    requires
        profile matches Some(p) ==> has_prefix(p@, "--profile="@),
    ensures
        outcome(res, profile_spec(opt_str(profile), debug, release)),
{
    if debug && release {
        return Err(single_arg_error("build", "--release"));
    }
    match profile {
        Some(prof) => {
            if debug {
                return Err(single_arg_error("build", "--debug"));
            }
            if release {
                return Err(single_arg_error("build", "--release"));
            }
            match strip_prefix(prof.as_str(), "--profile=") {
                Some(name) => Profile::from_str(name.as_str()),
                None => Profile::from_str(prof.as_str()),
            }
        },
        None => if release {
            Ok(Profile::Release)
        } else {
            Ok(Profile::Debug)
        },
    }
}

/// The switches of a build, run or test action read from `s`, and the arguments left.
pub open spec fn switches_spec(s: Seq<Seq<char>>, host: Platform, is_test: bool) -> Result<
    (SwitchesView, Seq<Seq<char>>),
    ArgError,
> {
    let d = take_fit(s, Pat::Exact("--debug"@, "-d"@));
    let r = take_fit(d.1, Pat::Exact("--release"@, "-r"@));
    let t = take_fit(r.1, Pat::Prefix("--toolchain="@, "-t="@));
    match toolchain_spec(t.0, host) {
        Err(e) => Err(e),
        Ok(tc) => {
            let inst = take_fit(t.1, Pat::Exact("--install"@, "--install"@));
            let echo = take_fit(inst.1, Pat::Exact("--echo"@, "--echo"@));
            let verb = take_fit(echo.1, Pat::Exact("--verbose"@, "-v"@));
            let prof = take_fit(verb.1, Pat::Prefix("--profile="@, "--profile="@));
            match profile_spec(prof.0, d.0 is Some, r.0 is Some) {
                Err(e) => Err(e),
                Ok(pv) => Ok(
                    (
                        SwitchesView {
                            profile: pv,
                            toolchain: tc,
                            install: inst.0 is Some,
                            echo: echo.0 is Some,
                            verbose: verb.0 is Some,
                            is_test,
                        },
                        prof.1,
                    ),
                ),
            }
        },
    }
}

/// The taken argument fits the switch it was taken for.
proof fn lemma_taken_fits(s: Seq<Seq<char>>, p: Pat)
    ensures
        take_fit(s, p).0 matches Some(v) ==> fits(v, p),
{
    lemma_first_fit_props(s, p);
}

/// Takes the switches of a build, run or test action out of `args`.
pub fn parse_switches(args: &mut Vec<String>, host: Platform, is_test: bool) -> (res: Result<
    BuildSwitches,
    Error,
>)
    ensures
        match switches_spec(strs(old(args)@), host, is_test) {
            Ok((sv, rest)) => res matches Ok(b) && b@ == sv && strs(final(args)@) == rest,
            Err(e) => res matches Err(x) && reports(x, e),
        },
{
    let debug = take_switch(args, "--debug", "-d", false).is_some();
    let release = take_switch(args, "--release", "-r", false).is_some();
    let ghost before_tc = strs(args@);
    let tc_arg = take_switch(args, "--toolchain=", "-t=", true);
    proof {
        lemma_taken_fits(before_tc, Pat::Prefix("--toolchain="@, "-t="@));
    }
    let toolchain = match parse_toolchain(tc_arg, host) {
        Ok(tc) => tc,
        Err(e) => return Err(e),
    };
    let install = take_switch(args, "--install", "--install", false).is_some();
    let echo = take_switch(args, "--echo", "--echo", false).is_some();
    let verbose = take_switch(args, "--verbose", "-v", false).is_some();
    let ghost before_prof = strs(args@);
    let prof_arg = take_switch(args, "--profile=", "--profile=", true);
    proof {
        lemma_taken_fits(before_prof, Pat::Prefix("--profile="@, "--profile="@));
    }
    let profile = match parse_profile(prof_arg, debug, release) {
        Ok(p) => p,
        Err(e) => return Err(e),
    };
    Ok(BuildSwitches { profile, toolchain, install, echo, verbose, is_test })
}


/// `new`: the project flags in any order around exactly one name.
pub open spec fn new_spec(s: Seq<Seq<char>>) -> Result<ActionView, ArgError> {
    let l = take_fit(s, Pat::Exact("--lib"@, "--lib"@));
    let c = take_fit(l.1, Pat::Exact("--c"@, "--c"@));
    let d = take_fit(c.1, Pat::Exact("--clangd"@, "--clangd"@));
    if d.1.len() == 1 {
        Ok(ActionView::New { library: l.0 is Some, is_c: c.0 is Some, clangd: d.0 is Some, name: d.1[0] })
    } else {
        Err(ArgError::ExtraArgs("new"@, d.1))
    }
}

/// `init`: the project flags and nothing else.
pub open spec fn init_spec(s: Seq<Seq<char>>) -> Result<ActionView, ArgError> {
    let l = take_fit(s, Pat::Exact("--lib"@, "--lib"@));
    let c = take_fit(l.1, Pat::Exact("--c"@, "--c"@));
    let d = take_fit(c.1, Pat::Exact("--clangd"@, "--clangd"@));
    if d.1.len() == 0 {
        Ok(ActionView::Init { library: l.0 is Some, is_c: c.0 is Some, clangd: d.0 is Some })
    } else {
        Err(ArgError::ExtraArgs("init"@, d.1))
    }
}

/// `build`: the build switches and nothing else.
pub open spec fn build_spec(s: Seq<Seq<char>>, host: Platform) -> Result<ActionView, ArgError> {
    match switches_spec(s, host, false) {
        Err(e) => Err(e),
        Ok((sw, rest)) => if rest.len() == 0 {
            Ok(ActionView::Build { switches: sw })
        } else {
            Err(ArgError::ExtraArgs("build"@, rest))
        },
    }
}

/// The arguments before the first `--`, and those after it that go to the program.
pub open spec fn split_at_dashes(s: Seq<Seq<char>>) -> (Seq<Seq<char>>, Seq<Seq<char>>) {
    let i = first_fit(s, Pat::Exact("--"@, "--"@));
    if i < s.len() {
        (s.take(i as int), s.skip(i as int + 1))
    } else {
        (s, Seq::empty())
    }
}

/// `run`: the build switches, then optionally `--` and the program's own arguments.
pub open spec fn run_spec(s: Seq<Seq<char>>, host: Platform) -> Result<ActionView, ArgError> {
    let parts = split_at_dashes(s);
    match switches_spec(parts.0, host, false) {
        Err(e) => Err(e),
        Ok((sw, rest)) => if rest.len() == 0 {
            Ok(ActionView::Run { switches: sw, args: parts.1 })
        } else {
            Err(ArgError::ExtraArgs("run"@, rest))
        },
    }
}

/// `test`: the build switches; what is left goes to the tests.
pub open spec fn test_spec(s: Seq<Seq<char>>, host: Platform) -> Result<ActionView, ArgError> {
    match switches_spec(s, host, true) {
        Err(e) => Err(e),
        Ok((sw, rest)) => Ok(ActionView::Test { switches: sw, args: rest }),
    }
}

/// The topics the help action knows.
pub open spec fn help_topic(a: Seq<char>) -> bool {
    a == "new"@ || a == "init"@ || a == "clean"@ || a == "build"@ || a == "run"@ || a == "test"@
        || a == "clangd"@ || a == "toolchains"@
}

/// `help`: alone, or followed by exactly one known topic.
pub open spec fn help_spec(s: Seq<Seq<char>>) -> Result<ActionView, ArgError> {
    if s.len() == 0 {
        Ok(ActionView::Help { action: None })
    } else if help_topic(s[0]) && s.len() == 1 {
        Ok(ActionView::Help { action: Some(s[0]) })
    } else {
        Err(ArgError::BadAction(s[0]))
    }
}

/// The whole grammar: the first argument names the action, the rest belong to it.
pub open spec fn parse_spec(args: Seq<Seq<char>>, host: Platform) -> Result<ActionView, ArgError>
    recommends
        args.len() > 0,
{
    let cmd = args[0];
    let s = args.drop_first();
    if cmd == "new"@ {
        new_spec(s)
    } else if cmd == "init"@ {
        init_spec(s)
    } else if cmd == "build"@ || cmd == "b"@ {
        build_spec(s, host)
    } else if cmd == "run"@ || cmd == "r"@ {
        run_spec(s, host)
    } else if cmd == "test"@ || cmd == "t"@ {
        test_spec(s, host)
    } else if cmd == "clean"@ || cmd == "c"@ {
        if s.len() == 0 {
            Ok(ActionView::Clean)
        } else {
            Err(ArgError::ExtraArgs("clean"@, s))
        }
    } else if cmd == "clangd"@ {
        if s.len() == 0 {
            Ok(ActionView::Clangd)
        } else {
            Err(ArgError::ExtraArgs("gen"@, s))
        }
    } else if cmd == "help"@ {
        help_spec(s)
    } else {
        Err(ArgError::BadAction(cmd))
    }
}

/// The index of the first argument equal to `a`, or the length when there is none.
fn position_of(args: &Vec<String>, a: &str) -> (res: usize)
    ensures
        res == first_fit(strs(args@), Pat::Exact(a@, a@)),
{
    let ghost s0 = strs(args@);
    let ghost p = Pat::Exact(a@, a@);
    let mut i: usize = 0;
    while i < args.len()
        invariant
            s0 == strs(args@),
            p == Pat::Exact(a@, a@),
            i <= args@.len(),
            forall|j: int| 0 <= j < i ==> !fits(#[trigger] s0[j], p),
        decreases args@.len() - i,
    {
        assert(s0[i as int] == args@[i as int]@);
        if str_eq(args[i].as_str(), a) {
            proof {
                lemma_first_fit(s0, p, i as int);
            }
            return i;
        }
        i = i + 1;
    }
    proof {
        lemma_first_fit(s0, p, i as int);
    }
    i
}

fn extra_args(cmd: &str, rest: Vec<String>) -> (res: Error)
    ensures
        reports(res, ArgError::ExtraArgs(cmd@, strs(rest@))),
{
    Error::ExtraArgs(owned(cmd), rest)
}

fn parse_project(mut args: Vec<String>, init: bool) -> (res: Result<Action, Error>)
    ensures
        outcome(res, if init { init_spec(strs(args@)) } else { new_spec(strs(args@)) }),
{
    let library = take_switch(&mut args, "--lib", "--lib", false).is_some();
    let is_c = take_switch(&mut args, "--c", "--c", false).is_some();
    let clangd = take_switch(&mut args, "--clangd", "--clangd", false).is_some();
    if init {
        if args.len() == 0 {
            Ok(Action::Init { library, is_c, clangd })
        } else {
            Err(extra_args("init", args))
        }
    } else {
        if args.len() == 1 {
            let name = args.remove(0);
            Ok(Action::New { library, is_c, clangd, name })
        } else {
            Err(extra_args("new", args))
        }
    }
}

fn parse_build(mut args: Vec<String>, host: Platform) -> (res: Result<Action, Error>)
    ensures
        outcome(res, build_spec(strs(args@), host)),
{
    let switches = match parse_switches(&mut args, host, false) {
        Ok(sw) => sw,
        Err(e) => return Err(e),
    };
    if args.len() == 0 {
        Ok(Action::Build { switches })
    } else {
        Err(extra_args("build", args))
    }
}

fn parse_run(mut args: Vec<String>, host: Platform) -> (res: Result<Action, Error>)
    ensures
        outcome(res, run_spec(strs(args@), host)),
{
    let ghost s0 = strs(args@);
    let i = position_of(&args, "--");
    proof {
        lemma_first_fit_props(s0, Pat::Exact("--"@, "--"@));
    }
    let user_args = if i < args.len() {
        let mut temp = args.split_off(i);
        temp.remove(0);
        assert(strs(temp@) =~= s0.skip(i + 1));
        assert(strs(args@) =~= s0.take(i as int));
        temp
    } else {
        let v: Vec<String> = Vec::new();
        assert(strs(v@) =~= Seq::<Seq<char>>::empty());
        v
    };
    let switches = match parse_switches(&mut args, host, false) {
        Ok(sw) => sw,
        Err(e) => return Err(e),
    };
    if args.len() == 0 {
        Ok(Action::Run { switches, args: user_args })
    } else {
        Err(extra_args("run", args))
    }
}

fn parse_test(mut args: Vec<String>, host: Platform) -> (res: Result<Action, Error>)
    ensures
        outcome(res, test_spec(strs(args@), host)),
{
    let switches = match parse_switches(&mut args, host, true) {
        Ok(sw) => sw,
        Err(e) => return Err(e),
    };
    Ok(Action::Test { switches, args })
}

fn parse_help(mut args: Vec<String>) -> (res: Result<Action, Error>)
    ensures
        outcome(res, help_spec(strs(args@))),
{
    if args.len() == 0 {
        return Ok(Action::Help { action: None });
    }
    let ghost s0 = strs(args@);
    let action = args.remove(0);
    let a = action.as_str();
    let topic = str_eq(a, "new") || str_eq(a, "init") || str_eq(a, "clean") || str_eq(a, "build")
        || str_eq(a, "run") || str_eq(a, "test") || str_eq(a, "clangd") || str_eq(a, "toolchains");
    if topic && args.len() == 0 {
        Ok(Action::Help { action: Some(action) })
    } else {
        Err(Error::BadAction(action))
    }
}

/// Parses a command line without the program name: the action word, then its
/// arguments.
pub fn parse_args(mut args: Vec<String>, host: Platform) -> (res: Result<Action, Error>)
    requires
        args@.len() > 0,
    ensures
        outcome(res, parse_spec(strs(args@), host)),
{
    let ghost s0 = strs(args@);
    let cmd = args.remove(0);
    assert(strs(args@) =~= s0.drop_first());
    let c = cmd.as_str();
    if str_eq(c, "new") {
        parse_project(args, false)
    } else if str_eq(c, "init") {
        parse_project(args, true)
    } else if str_eq(c, "build") || str_eq(c, "b") {
        parse_build(args, host)
    } else if str_eq(c, "run") || str_eq(c, "r") {
        parse_run(args, host)
    } else if str_eq(c, "test") || str_eq(c, "t") {
        parse_test(args, host)
    } else if str_eq(c, "clean") || str_eq(c, "c") {
        if args.len() == 0 {
            Ok(Action::Clean)
        } else {
            Err(extra_args("clean", args))
        }
    } else if str_eq(c, "clangd") {
        if args.len() == 0 {
            Ok(Action::Clangd)
        } else {
            Err(extra_args("gen", args))
        }
    } else if str_eq(c, "help") {
        parse_help(args)
    } else {
        Err(Error::BadAction(cmd))
    }
}

/// Parses the whole command line, program name first: with nothing after the program
/// name it asks for help.
pub fn collect_args(mut argv: Vec<String>, host: Platform) -> (res: Result<Action, Error>)
    requires
        argv@.len() > 0,
    ensures
        argv@.len() == 1 ==> res matches Ok(Action::Help { action: None }),
        argv@.len() > 1 ==> outcome(res, parse_spec(strs(argv@).drop_first(), host)),
{
    let ghost s0 = strs(argv@);
    argv.remove(0);
    assert(strs(argv@) =~= s0.drop_first());
    if argv.len() == 0 {
        return Ok(Action::Help { action: None });
    }
    parse_args(argv, host)
}


/// A switch present in the arguments is found by `take_fit`, at or before it.
proof fn lemma_take_finds(s: Seq<Seq<char>>, p: Pat, j: int)
    requires
        0 <= j < s.len(),
        fits(s[j], p),
    ensures
        first_fit(s, p) <= j,
        take_fit(s, p).0 is Some,
{
    lemma_first_fit_props(s, p);
}

/// No spelling of `--debug` is a spelling of `--release`.
proof fn lemma_debug_not_release(a: Seq<char>)
    requires
        fits(a, Pat::Exact("--debug"@, "-d"@)),
    ensures
        !fits(a, Pat::Exact("--release"@, "-r"@)),
{
    reveal_strlit("--debug");
    reveal_strlit("-d");
    reveal_strlit("--release");
    reveal_strlit("-r");
    assert("-d"@ != "-r"@) by {
        assert("-d"@[1] != "-r"@[1]);
    }
    assert("--debug"@.len() != "--release"@.len());
    assert("--debug"@.len() != "-r"@.len());
    assert("-d"@.len() != "--release"@.len());
}

/// Switches that ask for the debug and the release profile at once are refused.
proof fn lemma_switches_conflict(s: Seq<Seq<char>>, host: Platform, is_test: bool, i: int, j: int)
    requires
        0 <= i < s.len(),
        0 <= j < s.len(),
        fits(s[i], Pat::Exact("--debug"@, "-d"@)),
        fits(s[j], Pat::Exact("--release"@, "-r"@)),
    ensures
        switches_spec(s, host, is_test) is Err,
{
    let dp = Pat::Exact("--debug"@, "-d"@);
    let rp = Pat::Exact("--release"@, "-r"@);
    lemma_take_finds(s, dp, i);
    lemma_first_fit_props(s, dp);
    let k = first_fit(s, dp) as int;
    lemma_debug_not_release(s[k]);
    assert(k != j);
    let d1 = s.remove(k);
    let j1 = if j < k { j } else { j - 1 };
    assert(d1[j1] == s[j]);
    lemma_take_finds(d1, rp, j1);
}

/// The action words are told apart.
proof fn lemma_action_words()
    ensures
        "new"@ != "run"@,
        "init"@ != "test"@,
        "b"@ != "r"@,
        "b"@ != "t"@,
        "r"@ != "t"@,
        "new"@.len() == 3,
        "init"@.len() == 4,
        "build"@.len() == 5,
        "b"@.len() == 1,
        "run"@.len() == 3,
        "r"@.len() == 1,
        "test"@.len() == 4,
        "t"@.len() == 1,
{
    reveal_strlit("new");
    reveal_strlit("init");
    reveal_strlit("build");
    reveal_strlit("b");
    reveal_strlit("run");
    reveal_strlit("r");
    reveal_strlit("test");
    reveal_strlit("t");
    assert("new"@[0] != "run"@[0]);
    assert("init"@[0] != "test"@[0]);
    assert("b"@[0] != "r"@[0]);
    assert("b"@[0] != "t"@[0]);
    assert("r"@[0] != "t"@[0]);
}

/// No spelling of a profile flag is the `--` that ends the switches.
proof fn lemma_flags_not_dashes(a: Seq<char>)
    requires
        fits(a, Pat::Exact("--debug"@, "-d"@)) || fits(a, Pat::Exact("--release"@, "-r"@)),
    ensures
        a != "--"@,
{
    reveal_strlit("--debug");
    reveal_strlit("-d");
    reveal_strlit("--release");
    reveal_strlit("-r");
    reveal_strlit("--");
    if a.len() == 2 {
        assert(a[1] != "--"@[1]);
    }
}

proof fn lemma_run_conflict(s: Seq<Seq<char>>, host: Platform, i: int, j: int)
    requires
        0 <= i < s.len(),
        0 <= j < s.len(),
        fits(s[i], Pat::Exact("--debug"@, "-d"@)),
        fits(s[j], Pat::Exact("--release"@, "-r"@)),
        forall|m: int| 0 <= m < i || 0 <= m < j ==> s[m] != "--"@,
    ensures
        run_spec(s, host) is Err,
{
    let dash = Pat::Exact("--"@, "--"@);
    lemma_first_fit_props(s, dash);
    lemma_flags_not_dashes(s[i]);
    lemma_flags_not_dashes(s[j]);
    let k = first_fit(s, dash) as int;
    assert(k > i && k > j);
    let opts = split_at_dashes(s).0;
    assert(opts[i] == s[i]);
    assert(opts[j] == s[j]);
    lemma_switches_conflict(opts, host, false, i, j);
}

/// Asking for the debug and the release profile at once is refused, by the build, run
/// and test actions alike (for run, among the switches before `--`).
pub proof fn law_debug_release_conflict(args: Seq<Seq<char>>, host: Platform, i: int, j: int)
    requires
        args.len() > 0,
        args[0] == "build"@ || args[0] == "b"@ || args[0] == "run"@ || args[0] == "r"@
            || args[0] == "test"@ || args[0] == "t"@,
        1 <= i < args.len(),
        1 <= j < args.len(),
        fits(args[i], Pat::Exact("--debug"@, "-d"@)),
        fits(args[j], Pat::Exact("--release"@, "-r"@)),
        forall|m: int| 1 <= m < i || 1 <= m < j ==> args[m] != "--"@,
    ensures
        parse_spec(args, host) is Err,
{
    lemma_action_words();
    let s = args.drop_first();
    assert(s[i - 1] == args[i]);
    assert(s[j - 1] == args[j]);
    if args[0] == "run"@ || args[0] == "r"@ {
        assert forall|m: int| 0 <= m < i - 1 || 0 <= m < j - 1 implies s[m] != "--"@ by {
            assert(s[m] == args[m + 1]);
        }
        lemma_run_conflict(s, host, i - 1, j - 1);
        assert(run_spec(s, host) is Err);
    } else if args[0] == "test"@ || args[0] == "t"@ {
        lemma_switches_conflict(s, host, true, i - 1, j - 1);
        assert(test_spec(s, host) is Err);
    } else {
        lemma_switches_conflict(s, host, false, i - 1, j - 1);
        assert(build_spec(s, host) is Err);
    }
}

/// `run` hands every argument after the first `--` to the program, unchanged and in
/// order.
pub proof fn law_run_passes_trailing_args(args: Seq<Seq<char>>, host: Platform, k: int)
    requires
        args.len() > 0,
        args[0] == "run"@ || args[0] == "r"@,
        1 <= k < args.len(),
        args[k] == "--"@,
        forall|m: int| 1 <= m < k ==> args[m] != "--"@,
    ensures
        parse_spec(args, host) is Ok ==> (parse_spec(args, host) matches Ok(
            ActionView::Run { args: user, .. },
        ) && user == args.skip(k + 1)),
{
    lemma_action_words();
    let s = args.drop_first();
    let dash = Pat::Exact("--"@, "--"@);
    assert forall|m: int| 0 <= m < k - 1 implies !fits(#[trigger] s[m], dash) by {
        assert(s[m] == args[m + 1]);
    }
    assert(s[k - 1] == args[k]);
    lemma_first_fit(s, dash, k - 1);
    assert(s.skip(k) =~= args.skip(k + 1));
    assert(split_at_dashes(s).1 == args.skip(k + 1));
}

} // verus!
