use vango::action::assemble::{links_cpp_runtime, package_build_info, test_build_info};
use vango::action::test::test_layout;
use vango::cli::BuildSwitches;
use vango::config::build::{raw, PackageManifest};
use vango::config::lib::LibProfile;
use vango::config::profiles::KeyMap;
use vango::config::{Artefact, Language, Platform, Profile, Version};
use vango::config::build::Dependency;
use vango::deps::{
    check_interface, forward_switches, git_clone_args, package_dir, resolve_dependency, select_toolchain, vcpkg_name,
    DepRoot, Dependencies, VcpkgDependency,
};
use vango::error::Error;
use vango::exec::incremental::{get_build_level, transform_file, BuildLevel, Stamps};
use vango::exec::run::{
    next_stage, Stage, assign_pch, build_banner, compile_outcome, compile_warning, final_step_line, final_step_outcome, msvc_check_iso,
    pad, pch_files, pch_for, pch_needs_rebuild,
};
use vango::exec::{BuildInfo, PreCompHead, Toolchain};

fn info_with_sources(tc: Toolchain) -> BuildInfo {
    let mut info = BuildInfo::mock_debug("bin/debug/app", Artefact::Executable, Language::Cpp(120), tc, vec![], false);
    info.outdir = "bin/debug".to_string();
    info.sources = vec!["src/main.cpp".to_string(), "src/util/io.cpp".to_string()];
    info.headers = vec!["src/util/io.h".to_string()];
    info.relink = vec!["lib/libdep.a".to_string()];
    info
}

#[test]
fn steps_transform_file() {
    assert_eq!(transform_file("src/util/io.cpp", "bin/debug", false, Platform::Linux), "bin/debug/obj/util/io.o");
    assert_eq!(transform_file("src\\main.cpp", "bin\\debug", true, Platform::Windows), "bin\\debug\\obj\\main.obj");
    assert_eq!(transform_file("src/.hidden", "out", false, Platform::Linux), "out/obj/.hidden.o");
}

#[test]
fn steps_build_level() {
    let info = info_with_sources(Toolchain::Gcc);
    let fresh = Stamps { outfile: Some(100), headers: vec![50], sources: vec![60, 70], objects: vec![None, None], relink: vec![80] };
    assert_eq!(get_build_level(&info, &fresh, Platform::Linux), BuildLevel::UpToDate);
    let relink = Stamps { relink: vec![101], ..fresh.clone() };
    assert_eq!(get_build_level(&info, &relink, Platform::Linux), BuildLevel::LinkOnly);
    let one = Stamps { sources: vec![60, 170], ..fresh.clone() };
    assert_eq!(
        get_build_level(&info, &one, Platform::Linux),
        BuildLevel::CompileAndLink(vec![("src/util/io.cpp".to_string(), "bin/debug/obj/util/io.o".to_string())])
    );
    let header = Stamps { headers: vec![150], ..fresh.clone() };
    let BuildLevel::CompileAndLink(all) = get_build_level(&info, &header, Platform::Linux) else { panic!() };
    assert_eq!(all.len(), 2);
    let first = Stamps { outfile: None, objects: vec![Some(65), None], ..fresh.clone() };
    assert_eq!(
        get_build_level(&info, &first, Platform::Linux),
        BuildLevel::CompileAndLink(vec![("src/util/io.cpp".to_string(), "bin/debug/obj/util/io.o".to_string())])
    );
    let built = Stamps { outfile: None, objects: vec![Some(65), Some(75)], ..fresh };
    assert_eq!(get_build_level(&info, &built, Platform::Linux), BuildLevel::LinkOnly);
}

#[test]
fn steps_banners_and_warnings() {
    let b = build_banner(&BuildLevel::LinkOnly, 0, false, "bin/app").unwrap();
    assert_eq!(b.len(), 80);
    assert!(b.starts_with("building dependency: bin/app ="));
    let b = build_banner(&BuildLevel::CompileAndLink(vec![]), 1, true, "x").unwrap();
    assert!(b.starts_with("environment changed - rebuilding project: x ="));
    assert_eq!(build_banner(&BuildLevel::UpToDate, 1, false, "x"), None);
    assert_eq!(build_banner(&BuildLevel::UpToDate, u32::MAX, false, "x"), Some("build up to date for project: x".to_string()));
    assert_eq!(pad("abc".to_string(), '-', 5), "abc--");
    assert_eq!(pad("abcdef".to_string(), '-', 5), "abcdef");
    assert_eq!(msvc_check_iso(Language::Cpp(111)), Some("MSVC C++11: no longer supported - defaulting to C++14".to_string()));
    assert_eq!(msvc_check_iso(Language::Cpp(117)), None);
    assert!(msvc_check_iso(Language::C(99)).is_some());
}

#[test]
fn steps_precompiled_headers() {
    let info = info_with_sources(Toolchain::Gcc);
    let f = pch_files(&info, "pre.h", Platform::Linux);
    assert_eq!(f.header_path, "src/pre.h");
    assert_eq!(f.input, "src/pre.h");
    assert_eq!(f.output, "bin/debug/pch/pre.h.gch");
    assert_eq!(f.stub, None);
    let info = info_with_sources(Toolchain::Msvc);
    let f = pch_files(&info, "pre.h", Platform::Windows);
    assert_eq!(f.input, "bin/debug\\pch/pch_impl.cpp");
    assert_eq!(f.output, "bin/debug\\obj\\pre.h.obj");
    assert_eq!(f.stub, Some(("bin/debug\\pch/pch_impl.cpp".to_string(), "#include \"pre.h\"".to_string())));
    assert!(pch_needs_rebuild(false, None, 0));
    assert!(!pch_needs_rebuild(false, Some(10), 5));
    assert!(pch_needs_rebuild(true, Some(10), 5));

    let mut map: KeyMap<String, String> = KeyMap::new();
    let s = |v: &[&str]| v.iter().map(|x| x.to_string()).collect::<Vec<_>>();
    let clashes = assign_pch(&mut map, &s(&["a.cpp", "b.cpp", "a.cpp"]), &s(&["b.cpp"]), "one.h");
    assert!(clashes.is_empty());
    let clashes = assign_pch(&mut map, &s(&["a.cpp", "c.cpp"]), &s(&[]), "two.h");
    assert_eq!(clashes, s(&["a.cpp"]));
    assert_eq!(pch_for(&map, "a.cpp"), PreCompHead::Use("two.h".to_string()));
    assert_eq!(pch_for(&map, "b.cpp"), PreCompHead::NotUsed);
}

#[test]
fn steps_dependencies() {
    let mut d = Dependencies::default();
    d.add_system("ws2_32", Toolchain::Msvc, Platform::Windows);
    d.add_system("pthread", Toolchain::Gcc, Platform::Linux);
    d.add_targets(&vec!["fmt".to_string()], Toolchain::Gcc, Platform::Linux);
    d.add_headers("third/glm");
    d.add_vcpkg("x64-linux");
    assert_eq!(d.archives, vec!["ws2_32.lib".to_string(), "pthread".to_string(), "fmt".to_string()]);
    assert_eq!(d.incdirs, vec!["third/glm".to_string(), "bin/vcpkg_installed/x64-linux/include".to_string()]);
    assert_eq!(d.rpaths, vec!["bin/vcpkg_installed/x64-linux/lib".to_string()]);
    let profile = LibProfile {
        include_dir: "include".to_string(),
        libdir: "bin/debug".to_string(),
        binaries: vec!["engine".to_string()],
        defines: vec!["VANGO_DEBUG".to_string(), "ENGINE_STATIC".to_string()],
    };
    let mut d = Dependencies::default();
    d.absorb("../engine", profile, true, Toolchain::Gcc, Platform::Linux);
    assert_eq!(d.incdirs, vec!["../engine/include".to_string()]);
    assert_eq!(d.libdirs, vec!["../engine/bin/debug".to_string()]);
    assert_eq!(d.archives, vec!["engine".to_string()]);
    assert_eq!(d.relink, vec!["../engine/bin/debug/libengine.a".to_string()]);
    assert_eq!(d.defines, vec!["ENGINE_STATIC".to_string()]);
}

#[test]
fn steps_dependency_choices() {
    let switches = BuildSwitches { profile: Profile::Custom("fast".to_string()), ..Default::default() };
    assert_eq!(forward_switches(&switches, &Profile::Release).profile, Profile::Release);
    let switches = BuildSwitches { profile: Profile::Debug, ..Default::default() };
    assert_eq!(forward_switches(&switches, &Profile::Release).profile, Profile::Debug);
    assert_eq!(select_toolchain(None, Some(Toolchain::Zig), Toolchain::Gcc), Toolchain::Zig);
    assert_eq!(select_toolchain(Some(Toolchain::Emcc), Some(Toolchain::Zig), Toolchain::Gcc), Toolchain::Emcc);
    assert_eq!(select_toolchain(None, None, Toolchain::Gcc), Toolchain::Gcc);
    assert_eq!(check_interface("dep", Language::Cpp(117), "app", Language::Cpp(120)), Ok(()));
    assert_eq!(
        check_interface("dep", Language::Cpp(123), "app", Language::Cpp(120)),
        Err(Error::IncompatibleCppStd("dep".to_string(), Language::Cpp(123), "app".to_string(), Language::Cpp(120)))
    );
    assert_eq!(vcpkg_name("SFML"), "sfml");
    assert_eq!(package_dir("/home/u", "https://github.com/SFML/SFML.git", Platform::Linux), "/home/u/.vango/packages/SFML");
    assert_eq!(
        git_clone_args("url", &Some("v1".to_string()), "dest"),
        vec!["clone", "--branch", "v1", "--depth", "1", "url", "dest"].into_iter().map(String::from).collect::<Vec<_>>()
    );
    assert_eq!(git_clone_args("url", &None, "dest"), vec!["clone".to_string(), "url".to_string(), "dest".to_string()]);
    let _ = Version { major: 1, minor: 0, patch: 0 };
}

#[test]
fn steps_outcomes() {
    let jobs = BuildLevel::CompileAndLink(vec![("src/a.cpp".to_string(), "bin/obj/a.o".to_string())]);
    assert_eq!(
        compile_warning(&jobs, Toolchain::Msvc, Language::C(99)),
        Some("MSVC C99: not officially supported - defaulting to C89 with extensions, may be incomplete".to_string())
    );
    assert_eq!(compile_warning(&jobs, Toolchain::Gcc, Language::C(99)), None);
    assert_eq!(compile_warning(&BuildLevel::LinkOnly, Toolchain::Msvc, Language::C(99)), None);

    assert_eq!(compile_outcome(Toolchain::Gcc, false, false, "bin/app"), Err(Error::CompilerNotFound(Toolchain::Gcc)));
    assert_eq!(compile_outcome(Toolchain::Gcc, true, false, "bin/app"), Err(Error::CompilerFail("bin/app".to_string())));
    assert_eq!(compile_outcome(Toolchain::Gcc, true, true, "bin/app"), Ok(()));

    assert_eq!(final_step_line(Artefact::Executable, "bin/app"), format!("linking:   {: <30}", "bin/app"));
    assert_eq!(final_step_line(Artefact::StaticLib, "bin/libx.a"), format!("archiving: {: <30}", "bin/libx.a"));
    assert_eq!(
        final_step_outcome(Artefact::StaticLib, Toolchain::Zig, false, false, "bin/libx.a"),
        Err(Error::ArchiverNotFound(Toolchain::Zig))
    );
    assert_eq!(
        final_step_outcome(Artefact::SharedLib, Toolchain::Zig, true, false, "bin/libx.so"),
        Err(Error::LinkerFail("bin/libx.so".to_string()))
    );
    assert_eq!(
        final_step_outcome(Artefact::Executable, Toolchain::Gcc, true, true, "bin/app"),
        Ok("successfully built project: bin/app\n".to_string())
    );
}

fn small_package(runtime: Option<&str>) -> PackageManifest {
    let mut defaults = raw::BuildProfile::default();
    defaults.include_dirs = vec!["inc".to_string()];
    defaults.pch = Some("pch.h".to_string());
    defaults.compiler_options = vec!["-fx".to_string()];
    let file = raw::BuildFile {
        package: raw::Build {
            name: "pkg".to_string(),
            version: "1.0.0".to_string(),
            lang: "C++20".to_string(),
            artefact: None,
            toolchain: None,
            implib: None,
            interface: None,
            runtime: runtime.map(|r| r.to_string()),
            defaults,
        },
        vcpkg: None,
        dependencies: vec![],
        profile: vec![],
    };
    PackageManifest::try_from(file, Platform::Linux).unwrap()
}

#[test]
fn steps_assemble_build_info() {
    assert!(links_cpp_runtime(&Some("C++".to_string())));
    assert!(!links_cpp_runtime(&Some("c".to_string())));
    assert!(!links_cpp_runtime(&None));

    let m = small_package(Some("c++"));
    let profile = m.get(&Profile::Debug).unwrap().clone();
    let mut deps = Dependencies::default();
    deps.incdirs.push("dep/include".to_string());
    deps.archives.push("dep".to_string());
    let info = package_build_info(
        &m,
        Toolchain::Gcc,
        &profile,
        deps,
        vec!["X".to_string()],
        true,
        vec!["src/main.cpp".to_string()],
        vec![],
        "bin/debug".to_string(),
        "bin/debug/pkg".to_string(),
        None,
    );
    assert!(info.cpprt && info.changed && !info.is_testexe);
    assert_eq!(info.srcdir, "src");
    assert_eq!(info.incdirs, vec!["dep/include".to_string(), "src".to_string(), "inc".to_string()]);
    assert_eq!(info.archives, vec!["dep".to_string()]);
    assert_eq!(info.pch.len(), 1);
    assert_eq!(info.pch[0].header, "pch.h");
    assert_eq!(info.comp_args, vec!["-fx".to_string()]);

    let layout = test_layout("pkg", Toolchain::Gcc, "bin/debug", Platform::Linux);
    let mut deps = Dependencies::default();
    deps.defines.push("DEP".to_string());
    deps.archives.push("dep".to_string());
    let t = test_build_info(
        &m,
        Toolchain::Gcc,
        &profile,
        deps,
        "/opt/vango/testframework",
        "bin/debug",
        layout,
        vec!["test/t.cpp".to_string()],
        vec!["include/pkg/lib.h".to_string()],
        Platform::Linux,
    );
    assert!(t.is_testexe && !t.changed);
    assert_eq!(t.srcdir, "test");
    assert_eq!(t.defines, vec!["DEP".to_string(), "VANGO_TEST".to_string()]);
    assert_eq!(
        t.incdirs,
        vec!["test".to_string(), "/opt/vango/testframework".to_string(), "include".to_string()]
    );
    assert_eq!(t.libdirs, vec!["bin/debug".to_string()]);
    assert_eq!(t.archives, vec!["pkg".to_string(), "dep".to_string()]);
    assert_eq!(t.relink, vec!["bin/debug/libpkg.a".to_string()]);
    assert_eq!(t.outfile, "bin/debug/test/test_pkg.exe");
    assert_eq!(t.headers.len(), 5);
    assert_eq!(t.headers[1], "/opt/vango/testframework/vangotest/asserts.h");
    assert!(t.pch.is_empty());
}

#[test]
fn steps_resolve_dependencies() {
    let mut deps = Dependencies::default();
    let mut vcpkg: Vec<VcpkgDependency> = Vec::new();
    let git = Dependency::Git {
        git: "https://github.com/SFML/SFML.git".to_string(),
        tag: Some("3.0.1".to_string()),
        features: vec![],
    };
    assert_eq!(
        resolve_dependency(&mut deps, &mut vcpkg, "SFML", &git, Toolchain::Gcc, "/home/u", Platform::Linux),
        Some(DepRoot::Cloned {
            path: "/home/u/.vango/packages/SFML".to_string(),
            url: "https://github.com/SFML/SFML.git".to_string(),
            tag: Some("3.0.1".to_string()),
        })
    );
    let local = Dependency::Package { src: "../engine".to_string(), targets: vec![], features: vec![] };
    assert_eq!(
        resolve_dependency(&mut deps, &mut vcpkg, "engine", &local, Toolchain::Gcc, "/home/u", Platform::Linux),
        Some(DepRoot::Local("../engine".to_string()))
    );
    let from_vcpkg = Dependency::Package {
        src: "vcpkg".to_string(),
        targets: vec!["fmt".to_string()],
        features: vec!["core".to_string()],
    };
    assert_eq!(
        resolve_dependency(&mut deps, &mut vcpkg, "FMT", &from_vcpkg, Toolchain::Msvc, "/home/u", Platform::Windows),
        None
    );
    assert_eq!(vcpkg, vec![VcpkgDependency { name: "fmt".to_string(), features: vec!["core".to_string()] }]);
    assert_eq!(deps.archives, vec!["fmt.lib".to_string()]);
    let headers = Dependency::Headers { headers: "third/glm".to_string(), features: vec![] };
    assert_eq!(resolve_dependency(&mut deps, &mut vcpkg, "glm", &headers, Toolchain::Gcc, "/h", Platform::Linux), None);
    assert_eq!(deps.incdirs, vec!["third/glm".to_string()]);
    let system = Dependency::System { system: "pthread".to_string() };
    assert_eq!(resolve_dependency(&mut deps, &mut vcpkg, "pthread", &system, Toolchain::Gcc, "/h", Platform::Linux), None);
    assert_eq!(deps.archives, vec!["fmt.lib".to_string(), "pthread".to_string()]);
}

#[test]
fn steps_stage_order() {
    let jobs = BuildLevel::CompileAndLink(vec![("src/a.c".to_string(), "bin/obj/a.o".to_string())]);
    assert_eq!(next_stage(&BuildLevel::UpToDate, Stage::Start, true), Stage::Finished);
    assert_eq!(next_stage(&jobs, Stage::Start, true), Stage::Precompile);
    assert_eq!(next_stage(&jobs, Stage::Precompile, true), Stage::Compile);
    assert_eq!(next_stage(&BuildLevel::LinkOnly, Stage::Precompile, true), Stage::Link);
    assert_eq!(next_stage(&jobs, Stage::Precompile, false), Stage::Finished);
    assert_eq!(next_stage(&jobs, Stage::Compile, false), Stage::Finished);
    assert_eq!(next_stage(&jobs, Stage::Compile, true), Stage::Link);
    assert_eq!(next_stage(&jobs, Stage::Link, true), Stage::Finished);
}
