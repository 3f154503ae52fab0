use vango::config::{Platform, Profile};
use vango::error::Error;
use vango::input::{collect_args, parse_args, valid_toolchain, Action, BuildSwitches, ToolChain};

fn parse(items: &[&str]) -> Result<Action, Error> {
    parse_args(items.iter().map(|s| s.to_string()).collect(), Platform::Linux)
}

#[test]
pub fn parse_action_new_1() {
    let name = "foo".to_string();
    let result = parse(&["new", "foo"]);
    assert_eq!(result.unwrap(), Action::New { name, library: false, is_c: false, clangd: false });
}

#[test]
pub fn parse_action_new_2() {
    let name = "foo".to_string();
    let result = parse(&["new", "foo", "--lib"]);
    assert_eq!(result.unwrap(), Action::New { name, library: true, is_c: false, clangd: false });
}

#[test]
pub fn parse_action_new_3() {
    let name = "foo".to_string();
    let result = parse(&["new", "--lib", "foo"]);
    assert_eq!(result.unwrap(), Action::New { name, library: true, is_c: false, clangd: false });
}

#[test]
pub fn parse_action_new_4() {
    let name = "foo".to_string();
    let result = parse(&["new", "--lib", "foo", "--c"]);
    assert_eq!(result.unwrap(), Action::New { name, library: true, is_c: true, clangd: false });
}

#[test]
pub fn parse_action_build_1() {
    let result = parse(&["build"]);
    assert_eq!(result.unwrap(), Action::Build { switches: BuildSwitches { profile: Profile::Debug, ..Default::default() } });
}

#[test]
pub fn parse_action_build_2() {
    let result = parse(&["build", "-r"]);
    assert_eq!(result.unwrap(), Action::Build { switches: BuildSwitches { profile: Profile::Release, ..Default::default() } });
}

#[test]
pub fn parse_action_build_3() {
    let result = parse(&["build", "-t=gcc", "--release"]);
    assert_eq!(
        result.unwrap(),
        Action::Build { switches: BuildSwitches { profile: Profile::Release, toolchain: ToolChain::Gcc, ..Default::default() } }
    );
}

#[test]
pub fn parse_action_build_4() {
    let result = parse(&["build", "-t=clang-gnu", "--release"]);
    assert_eq!(
        result.unwrap(),
        Action::Build { switches: BuildSwitches { profile: Profile::Release, toolchain: ToolChain::ClangGnu, ..Default::default() } }
    );
}

#[test]
pub fn parse_action_run_1() {
    let result = parse(&["run", "--"]);
    assert_eq!(result.unwrap(), Action::Run { switches: BuildSwitches::default(), args: vec![] });
}

#[test]
pub fn parse_action_run_2() {
    let result = parse(&["run", "-r", "--"]);
    assert_eq!(result.unwrap(), Action::Run { switches: BuildSwitches { profile: Profile::Release, ..Default::default() }, args: vec![] });
}

#[test]
pub fn parse_action_run_3() {
    let result = parse(&["run", "--", "-r"]);
    assert_eq!(result.unwrap(), Action::Run { switches: BuildSwitches::default(), args: vec!["-r".to_string()] });
}

#[test]
pub fn parse_action_error_1() {
    let result = parse(&["abc", "--release"]);
    assert!(result.is_err());
}

#[test]
pub fn parse_action_error_2() {
    let result = parse(&["build", "dummy"]);
    assert!(result.is_err());
}

#[test]
pub fn parse_action_error_3() {
    let result = parse(&["build", "--release", "dummy"]);
    assert!(result.is_err());
}

#[test]
pub fn parse_action_error_4() {
    let result = parse(&["build", "-d", "-r"]);
    assert!(result.is_err());
}

#[test]
fn input_errors_name_their_cause() {
    assert_eq!(parse(&["abc", "--release"]), Err(Error::BadAction("abc".to_string())));
    assert_eq!(parse(&["build", "dummy"]), Err(Error::ExtraArgs("build".to_string(), vec!["dummy".to_string()])));
    assert_eq!(parse(&["build", "-d", "-r"]), Err(Error::ExtraArgs("build".to_string(), vec!["--release".to_string()])));
    assert_eq!(parse(&["run", "-d", "--profile=x"]), Err(Error::ExtraArgs("build".to_string(), vec!["--debug".to_string()])));
    assert_eq!(parse(&["build", "-t=msvc"]), Err(Error::MsvcUnavailable));
    assert_eq!(parse(&["build", "--toolchain=ICC"]), Err(Error::UnknownToolChain("icc".to_string())));
    assert_eq!(parse(&["clangd", "x"]), Err(Error::ExtraArgs("gen".to_string(), vec!["x".to_string()])));
    assert_eq!(parse(&["help", "wat"]), Err(Error::BadAction("wat".to_string())));
}

#[test]
fn input_host_decides_toolchain() {
    let on_windows = parse_args(vec!["b".to_string(), "-t=clang".to_string()], Platform::Windows).unwrap();
    let Action::Build { switches } = on_windows else { panic!() };
    assert_eq!(switches.toolchain, ToolChain::ClangMsvc);
    let default_mac = parse_args(vec!["b".to_string()], Platform::Macos).unwrap();
    let Action::Build { switches } = default_mac else { panic!() };
    assert_eq!(switches.toolchain, ToolChain::ClangGnu);
    assert_eq!(valid_toolchain("CLANG", Platform::Windows), Ok(ToolChain::ClangMsvc));
    assert_eq!(valid_toolchain("clang-msvc", Platform::Linux), Err(Error::MsvcUnavailable));
}

#[test]
fn input_other_actions() {
    assert_eq!(parse(&["init", "--c", "--clangd"]), Ok(Action::Init { library: false, is_c: true, clangd: true }));
    assert_eq!(parse(&["c"]), Ok(Action::Clean));
    assert_eq!(parse(&["help", "run"]), Ok(Action::Help { action: Some("run".to_string()) }));
    let test = parse(&["t", "--echo", "case1"]).unwrap();
    let Action::Test { switches, args } = test else { panic!() };
    assert!(switches.echo && switches.is_test);
    assert_eq!(args, vec!["case1".to_string()]);
    let custom = parse(&["b", "--profile=fast"]).unwrap();
    let Action::Build { switches } = custom else { panic!() };
    assert_eq!(switches.profile, Profile::Custom("fast".to_string()));
    assert_eq!(collect_args(vec!["vango".to_string()], Platform::Linux), Ok(Action::Help { action: None }));
}

#[test]
fn input_default_switches_follow_host() {
    assert_eq!(BuildSwitches::default_for(Platform::Windows).toolchain, ToolChain::Msvc);
    assert_eq!(BuildSwitches::default_for(Platform::Macos).toolchain, ToolChain::ClangGnu);
    assert_eq!(BuildSwitches::default_for(Platform::Linux), BuildSwitches::default());
    assert_eq!(BuildSwitches::default_for(Platform::Macos).profile, Profile::Debug);
}
