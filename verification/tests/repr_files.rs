use vango::config::{Language, Profile};
use vango::deps::vcpkg_dependency;
use vango::error::Error;
use vango::exec::agnostic::{TcProperties, Toolchain};
use vango::repr::buildfile::{BuildFile, SerdeBuildFile, SerdeProfile};
use vango::repr::libfile::{LibFile, SerdeLibFile, SerdeLibProfile};
use vango::repr::Lang;

fn strings(v: &[&str]) -> Vec<String> {
    v.iter().map(|s| s.to_string()).collect()
}

fn sample_build() -> SerdeBuildFile {
    SerdeBuildFile {
        project: "demo".to_string(),
        lang: "C++17".to_string(),
        dependencies: strings(&["engine"]),
        defaults: SerdeProfile {
            include_dirs: Some(strings(&["inc"])),
            defines: Some(strings(&["X"])),
            pch: Some("pch.h".to_string()),
            ..Default::default()
        },
        profile: vec![
            (
                "debug".to_string(),
                SerdeProfile {
                    src: Some("source".to_string()),
                    defines: Some(strings(&["D"])),
                    ..Default::default()
                },
            ),
            (
                "fast".to_string(),
                SerdeProfile {
                    inherits: Some("release".to_string()),
                    include_pub: Some("pub".to_string()),
                    pch: Some("other.h".to_string()),
                    ..Default::default()
                },
            ),
            (
                "odd".to_string(),
                SerdeProfile { inherits: Some("profiling".to_string()), ..Default::default() },
            ),
        ],
    }
}

#[test]
fn repr_buildfile_resolves_profiles() {
    let mut file = BuildFile::from_serde(sample_build()).unwrap();
    assert_eq!(file.project, "demo");
    assert_eq!(file.lang, Lang::Cpp(117));
    assert_eq!(file.dependencies, strings(&["engine"]));

    let debug = file.take(&Profile::Debug).unwrap();
    assert_eq!(debug.src, "source");
    assert_eq!(debug.include_dirs, strings(&["src", "inc"]));
    assert_eq!(debug.include_pub, "src");
    assert_eq!(debug.pch, Some("pch.h".to_string()));
    assert_eq!(debug.defines, strings(&["VANGO_DEBUG", "X", "D"]));

    let release = file.take(&Profile::Release).unwrap();
    assert_eq!(release.src, "src");
    assert_eq!(release.defines, strings(&["VANGO_RELEASE", "X"]));

    let fast = file.take(&Profile::Custom("fast".to_string())).unwrap();
    assert_eq!(fast.include_pub, "pub");
    assert_eq!(fast.pch, Some("pch.h".to_string()));
    assert_eq!(fast.defines, strings(&["VANGO_RELEASE", "X"]));

    assert_eq!(
        file.take(&Profile::Custom("odd".to_string())).unwrap_err(),
        Error::ProfileUnavailable("demo".to_string(), "odd".to_string())
    );
    assert_eq!(
        file.take(&Profile::Debug).unwrap_err(),
        Error::ProfileUnavailable("demo".to_string(), "debug".to_string())
    );
}

#[test]
fn repr_buildfile_refuses_bad_input() {
    let mut file = sample_build();
    file.profile.push(("weird".to_string(), SerdeProfile::default()));
    assert_eq!(BuildFile::from_serde(file).unwrap_err(), Error::InvalidCustomProfile("weird".to_string()));

    let mut file = sample_build();
    file.lang = "C++24".to_string();
    assert_eq!(BuildFile::from_serde(file).unwrap_err(), Error::InvalidCppStd("c++24".to_string()));
}

#[test]
fn repr_libfile_resolves_profiles() {
    let file = SerdeLibFile {
        library: "sfml".to_string(),
        lang: "c++11".to_string(),
        defaults: SerdeLibProfile { binaries: Some(strings(&["sfml-main"])), ..Default::default() },
        profile: vec![(
            "release".to_string(),
            SerdeLibProfile {
                libdir: Some("lib".to_string()),
                defines: Some(strings(&["SFML_STATIC"])),
                ..Default::default()
            },
        )],
    };
    let mut lib = LibFile::from_serde(file).unwrap();
    assert_eq!(lib.lang, Lang::Cpp(111));
    let debug = lib.take(&Profile::Debug).unwrap();
    assert_eq!(debug.include_dir, "include");
    assert_eq!(debug.libdir, "bin/debug");
    assert_eq!(debug.binaries, strings(&["sfml-main"]));
    let release = lib.take(&Profile::Release).unwrap();
    assert_eq!(release.libdir, "lib");
    assert_eq!(release.defines, strings(&["SFML_STATIC"]));

    let bad = SerdeLibFile {
        library: "x".to_string(),
        lang: "c11".to_string(),
        defaults: SerdeLibProfile::default(),
        profile: vec![("custom".to_string(), SerdeLibProfile::default())],
    };
    assert_eq!(LibFile::from_serde(bad).unwrap_err(), Error::InvalidCustomProfile("custom".to_string()));
}

#[test]
fn repr_libfile_from_build() {
    let build = BuildFile::from_serde(sample_build()).unwrap();
    let mut lib = LibFile::from_build(build);
    assert_eq!(lib.library, "demo");
    let fast = lib.take(&Profile::Custom("fast".to_string())).unwrap();
    assert_eq!(fast.include_dir, "pub");
    assert_eq!(fast.libdir, "bin/fast");
    assert_eq!(fast.binaries, strings(&["demo"]));
    assert_eq!(fast.defines, strings(&["VANGO_RELEASE", "X"]));
    let debug = lib.take(&Profile::Debug).unwrap();
    assert_eq!(debug.libdir, "bin/debug");
    assert_eq!(debug.defines, strings(&["VANGO_DEBUG", "X", "D"]));
}

#[test]
fn agnostic_compile_command() {
    let tc = Toolchain {
        toolchain: TcProperties {
            compiler_c: strings(&["clang"]),
            compiler_cpp: strings(&["clang++", "--target=x86_64-w64-mingw32"]),
            ..Default::default()
        },
        ..Default::default()
    };
    let cpp = tc.compile(Lang::Cpp(120));
    assert_eq!(cpp.program, "clang++");
    assert_eq!(cpp.args, strings(&["--target=x86_64-w64-mingw32"]));
    let c = tc.compile(Lang::C(99));
    assert_eq!(c.program, "clang");
    assert!(c.args.is_empty());
}

#[test]
fn vcpkg_dependency_is_lower_case() {
    let dep = vcpkg_dependency("SFML", &strings(&["graphics"]));
    assert_eq!(dep.name, "sfml");
    assert_eq!(dep.features, strings(&["graphics"]));
}

#[test]
fn repr_libfile_validate() {
    let sample = || SerdeLibFile {
        library: "sfml".to_string(),
        lang: "c++11".to_string(),
        defaults: SerdeLibProfile::default(),
        profile: vec![],
    };
    let lib = LibFile::from_serde(sample()).unwrap().validate(Lang::Cpp(117)).unwrap();
    assert_eq!(lib.library, "sfml");
    assert_eq!(lib.lang, Lang::Cpp(111));
    assert!(LibFile::from_serde(sample()).unwrap().validate(Lang::Cpp(111)).is_ok());
    assert_eq!(
        LibFile::from_serde(sample()).unwrap().validate(Lang::Cpp(103)).unwrap_err(),
        Error::IncompatibleCppStd("sfml".to_string(), Language::Cpp(111), String::new(), Language::Cpp(103))
    );
    assert_eq!(
        LibFile::from_serde(sample()).unwrap().validate(Lang::C(123)).unwrap_err(),
        Error::IncompatibleCppStd("sfml".to_string(), Language::Cpp(111), String::new(), Language::C(123))
    );
}
