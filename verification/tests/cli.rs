use vango::cli::{Action, BuildArgs, BuildSwitches, Cli, CliError, GenTarget, ProjectOpts};
use vango::config::{Platform, Profile};
use vango::exec::Toolchain;

fn argv(items: &[&str]) -> Vec<String> {
    items.iter().map(|s| s.to_string()).collect()
}

#[test]
fn release_profile() {
    let cli = Cli::try_parse_from(argv(&["vango", "b", "-r"])).unwrap();
    let Some(Action::Build { build }) = cli.action else { panic!() };
    assert_eq!(build.into_switches(false).profile, Profile::Release);
}

#[test]
fn debug_and_release_conflict() {
    assert!(Cli::try_parse_from(argv(&["vango", "build", "-d", "-r"])).is_err());
}

#[test]
fn no_args_is_help() {
    let cli = Cli::try_parse_from(argv(&["vango"])).unwrap();
    assert_eq!(cli.action, None);
}

#[test]
fn cli_conflict_names_both_switches() {
    let err = Cli::try_parse_from(argv(&["vango", "run", "--release", "--debug"])).unwrap_err();
    assert_eq!(err, CliError::ArgumentConflict("--debug".to_string(), "--release".to_string()));
    let err = Cli::try_parse_from(argv(&["vango", "test", "-p=fast", "-r"])).unwrap_err();
    assert_eq!(err, CliError::ArgumentConflict("--release".to_string(), "--profile".to_string()));
}

#[test]
fn cli_new_project() {
    let cli = Cli::try_parse_from(argv(&["vango", "new", "--lib", "demo", "--clangd"])).unwrap();
    assert_eq!(
        cli.action,
        Some(Action::New {
            name: "demo".to_string(),
            opts: ProjectOpts { library: true, strict: false, is_c: false, clangd: true },
        })
    );
    let err = Cli::try_parse_from(argv(&["vango", "new"])).unwrap_err();
    assert_eq!(err, CliError::MissingRequired("<NAME>".to_string()));
    let err = Cli::try_parse_from(argv(&["vango", "new", "a", "b"])).unwrap_err();
    assert_eq!(err, CliError::UnknownArgument("b".to_string()));
}

#[test]
fn cli_run_forwards_arguments() {
    let cli = Cli::try_parse_from(argv(&["vango", "r", "-t=zig", "--", "-r", "x"])).unwrap();
    let Some(Action::Run { build, args }) = cli.action else { panic!() };
    assert_eq!(args, argv(&["-r", "x"]));
    assert_eq!(build.toolchain, Some(Toolchain::Zig));
    let err = Cli::try_parse_from(argv(&["vango", "run", "x"])).unwrap_err();
    assert_eq!(err, CliError::UnknownArgument("x".to_string()));
}

#[test]
fn cli_test_takes_names() {
    let cli = Cli::try_parse_from(argv(&["vango", "t", "one", "--echo", "two"])).unwrap();
    let Some(Action::Test { build, args }) = cli.action else { panic!() };
    assert_eq!(args, argv(&["one", "two"]));
    assert!(build.echo);
    let switches = build.into_switches(true);
    assert_eq!(switches.profile, Profile::Debug);
    assert!(switches.is_test);
}

#[test]
fn cli_errors() {
    assert_eq!(Cli::try_parse_from(argv(&["vango", "-h"])).unwrap_err(), CliError::DisplayHelp);
    assert_eq!(
        Cli::try_parse_from(argv(&["vango", "frobnicate"])).unwrap_err(),
        CliError::InvalidSubcommand("frobnicate".to_string())
    );
    assert_eq!(
        Cli::try_parse_from(argv(&["vango", "build", "-t=msvc2"])).unwrap_err(),
        CliError::InvalidValue("msvc2".to_string())
    );
    assert_eq!(
        Cli::try_parse_from(argv(&["vango", "build", "--echo", "--echo"])).unwrap_err(),
        CliError::UsedTwice("--echo".to_string())
    );
    assert_eq!(
        Cli::try_parse_from(argv(&["vango", "-v", "build"])).unwrap_err(),
        CliError::ArgumentConflict("--version".to_string(), "build".to_string())
    );
    assert_eq!(
        Cli::try_parse_from(argv(&["vango", "help", "nothing"])).unwrap_err(),
        CliError::InvalidValue("nothing".to_string())
    );
    assert_eq!(
        Cli::try_parse_from(argv(&["vango", "gen"])).unwrap_err(),
        CliError::MissingRequired("<TARGET>".to_string())
    );
}

#[test]
fn cli_collect_args() {
    assert_eq!(vango::cli::collect_args(argv(&["vango"])), Ok(Action::Help { action: None }));
    assert_eq!(vango::cli::collect_args(argv(&["vango", "--version"])), Ok(Action::Version));
    assert_eq!(
        vango::cli::collect_args(argv(&["vango", "help", "toolchains"])),
        Ok(Action::Help { action: Some("toolchains".to_string()) })
    );
    assert_eq!(vango::cli::collect_args(argv(&["vango", "gen", "clangd"])), Ok(Action::Gen { target: GenTarget::Clangd }));
    assert_eq!(vango::cli::collect_args(argv(&["vango", "c"])), Ok(Action::Clean));
}

#[test]
fn cli_custom_profile_switches() {
    let build = BuildArgs {
        debug: false,
        release: false,
        profile: Some("fast".to_string()),
        toolchain: None,
        install: false,
        echo: false,
        verbose: true,
    };
    let s = build.into_switches(false);
    assert_eq!(s.profile, Profile::Custom("fast".to_string()));
    assert!(s.verbose);
    assert_eq!(BuildSwitches::default().profile, Profile::Debug);
}

#[test]
fn cli_toolchain_help() {
    assert_eq!(
        vango::cli::toolchain_help(Platform::Linux),
        "Specify a toolchain for compilation (user default: GCC)"
    );
    assert_eq!(vango::cli::parse_toolchain("clang-gcc"), Ok(Toolchain::ClangGcc));
    assert_eq!(vango::cli::parse_toolchain("gnu"), Err(CliError::InvalidValue("gnu".to_string())));
}
