use vango::config::build::raw;
use vango::config::build::{BuildProfile, Dependency, PackageManifest};
use vango::config::lib::raw as libraw;
use vango::config::lib::{LibManifest, LibProfile};
use vango::config::{kind_of, manifest_candidates, manifest_kind, Artefact, Language, ManifestKind, Platform, Profile, VangoFile, Version};
use vango::error::Error;
use vango::exec::Toolchain;

fn package(name: &str, lang: &str) -> raw::Build {
    raw::Build {
        name: name.to_string(),
        version: "0.1.0".to_string(),
        lang: lang.to_string(),
        artefact: None,
        toolchain: None,
        implib: None,
        interface: None,
        runtime: None,
        defaults: raw::BuildProfile::default(),
    }
}

fn shimmy() -> raw::BuildFile {
    let mut pkg = package("Shimmy", "C++20");
    pkg.defaults.include_dirs = vec!["headers".to_string()];
    let mut dbg = raw::BuildProfile::default();
    dbg.include_dirs = vec!["dbg_headers".to_string()];
    raw::BuildFile {
        package: pkg,
        vcpkg: None,
        dependencies: vec![
            (
                "engine".to_string(),
                Dependency::Package { src: "../engine".to_string(), targets: vec![], features: vec![] },
            ),
            (
                "SFML".to_string(),
                Dependency::Git {
                    git: "https://github.com/SFML/SFML.git".to_string(),
                    tag: None,
                    features: vec!["graphics".to_string()],
                },
            ),
        ],
        profile: vec![("debug".to_string(), dbg)],
    }
}

#[test]
fn manifest_resolves_package() {
    let m = PackageManifest::try_from(shimmy(), Platform::Linux).unwrap();
    assert_eq!(m.name, "Shimmy");
    assert_eq!(m.version, Version { major: 0, minor: 1, patch: 0 });
    assert_eq!(m.lang, Language::Cpp(120));
    assert_eq!(m.interface, Language::Cpp(120));
    assert_eq!(m.artefact, Artefact::Executable);
    assert!(!m.implib);
    assert_eq!(m.vcpkg.triplet, "x64-linux");
    assert_eq!(m.dependencies.len(), 2);
    let debug = m.get(&Profile::Debug).unwrap();
    assert_eq!(
        *debug,
        BuildProfile {
            include_dirs: vec!["src".to_string(), "headers".to_string(), "dbg_headers".to_string()],
            defines: vec!["VANGO_DEBUG".to_string()],
            ..BuildProfile::default_debug()
        }
    );
    let release = m.get(&Profile::Release).unwrap();
    assert_eq!(
        *release,
        BuildProfile {
            include_dirs: vec!["src".to_string(), "headers".to_string()],
            defines: vec!["VANGO_RELEASE".to_string()],
            ..BuildProfile::default_release()
        }
    );
}

#[test]
fn manifest_errors_in_order() {
    let mut bad = shimmy();
    bad.package.lang = "C++21".to_string();
    bad.package.version = "1".to_string();
    assert_eq!(PackageManifest::try_from(bad, Platform::Linux).unwrap_err(), Error::InvalidCppStd("c++21".to_string()));
    let mut bad = shimmy();
    bad.profile.push(("fast".to_string(), raw::BuildProfile::default()));
    assert_eq!(PackageManifest::try_from(bad, Platform::Linux).unwrap_err(), Error::InvalidCustomProfile("fast".to_string()));
    let mut bad = shimmy();
    bad.package.version = "1.0".to_string();
    assert_eq!(PackageManifest::try_from(bad, Platform::Linux).unwrap_err(), Error::MimicTomlSemver("1.0".to_string()));
}

#[test]
fn manifest_custom_profile_and_remove() {
    let mut file = shimmy();
    let mut fast = raw::BuildProfile::default();
    fast.inherits = Some("release".to_string());
    fast.defines = vec!["FAST".to_string()];
    fast.build_settings.opt_level = Some(2);
    file.profile.push(("fast".to_string(), fast));
    file.package.artefact = Some(Artefact::SharedLib);
    let mut m = PackageManifest::try_from(file, Platform::Windows).unwrap();
    assert!(m.implib);
    let fast = Profile::Custom("fast".to_string());
    let p = m.remove(&fast).unwrap();
    assert_eq!(p.baseprof, Profile::Release);
    assert_eq!(p.defines, vec!["VANGO_RELEASE".to_string(), "FAST".to_string()]);
    assert_eq!(p.settings.opt_level, 2);
    assert!(p.settings.opt_linktime);
    assert_eq!(m.get(&fast).unwrap_err(), Error::ProfileUnavailable("Shimmy".to_string(), "fast".to_string()));
    assert_eq!(m.remove(&fast).unwrap_err(), Error::ProfileUnavailable("Shimmy".to_string(), "fast".to_string()));
    assert!(m.get(&Profile::Debug).is_ok());
}

#[test]
fn manifest_layering() {
    let mut section = raw::BuildProfile::default();
    section.pch = Some("pre.h".to_string());
    section.compiler_options = vec!["-fx".to_string()];
    section.build_settings.warn_as_error = Some(true);
    section.build_settings.sanitize.address = Some(true);
    let p = BuildProfile::default_debug().layer(section);
    assert_eq!(p.pch, Some("pre.h".to_string()));
    assert_eq!(p.compiler_options, vec!["-fx".to_string()]);
    assert!(p.settings.warn_as_error && p.settings.asan);
    let cleared = p.layer(raw::BuildProfile::default());
    assert_eq!(cleared.pch, None);
    assert_eq!(cleared.compiler_options, vec!["-fx".to_string()]);
    let test = BuildProfile::default_test();
    assert_eq!(test.defines, vec!["VANGO_DEBUG".to_string(), "VANGO_TEST".to_string()]);
}

fn sfml() -> libraw::LibManifest {
    let mut defaults = libraw::LibProfile::default();
    defaults.include_dir = Some("include".to_string());
    defaults.defines = vec!["SFML_STATIC".to_string()];
    let bins = vec!["sfml-network-s".to_string(), "sfml-system-s".to_string()];
    let mut dbg = libraw::LibProfile::default();
    dbg.libdir = Some("bin/debug".to_string());
    dbg.binaries = bins.clone();
    let mut rel = libraw::LibProfile::default();
    rel.libdir = Some("bin/release".to_string());
    rel.binaries = bins;
    libraw::LibManifest {
        staticlib: libraw::Library {
            name: "SFML".to_string(),
            version: "3.0.1".to_string(),
            lang: "C++17".to_string(),
            defaults,
        },
        profile: vec![("debug".to_string(), dbg), ("release".to_string(), rel)],
    }
}

#[test]
fn manifest_resolves_library() {
    let mut lib = LibManifest::try_from(sfml()).unwrap();
    assert_eq!(lib.name, "SFML");
    assert_eq!(lib.lang, Language::Cpp(117));
    let dbg = lib.remove(&Profile::Debug).unwrap();
    assert_eq!(
        dbg,
        LibProfile {
            include_dir: "include".to_string(),
            libdir: "bin/debug".to_string(),
            binaries: vec!["sfml-network-s".to_string(), "sfml-system-s".to_string()],
            defines: vec!["VANGO_DEBUG".to_string(), "SFML_STATIC".to_string()],
        }
    );
    assert!(lib.remove(&Profile::Debug).is_err());
    let lib = lib.validate("Game", Language::Cpp(114));
    assert_eq!(
        lib.unwrap_err(),
        Error::IncompatibleCppStd("SFML".to_string(), Language::Cpp(117), "Game".to_string(), Language::Cpp(114))
    );
}

#[test]
fn manifest_library_from_package() {
    let mut file = shimmy();
    file.package.artefact = Some(Artefact::StaticLib);
    let m = PackageManifest::try_from(file, Platform::Linux).unwrap();
    let mut lib = LibManifest::from_build(m, Toolchain::Zig, Platform::Linux).unwrap();
    let dbg = lib.remove(&Profile::Debug).unwrap();
    assert_eq!(dbg.libdir, "bin/zig/debug");
    assert_eq!(dbg.include_dir, "include");
    assert_eq!(dbg.binaries, vec!["Shimmy".to_string()]);
    let app = PackageManifest::try_from(shimmy(), Platform::Linux).unwrap();
    assert_eq!(LibManifest::from_build(app, Toolchain::Gcc, Platform::Linux).unwrap_err(), Error::InvalidDependency("Shimmy".to_string()));
}

#[test]
fn manifest_kinds() {
    assert_eq!(manifest_kind("[package]\nname = \"x\"\n", "/p"), Ok(ManifestKind::Build));
    assert_eq!(manifest_kind("[staticlib]\nname = \"x\"\n", "/p"), Ok(ManifestKind::Lib));
    assert_eq!(manifest_kind("[other]\n", "/p"), Err(Error::InvalidPkgHeader("/p".to_string())));
    assert!(matches!(manifest_kind("[package", "/p"), Err(Error::TomlParse(_))));
    assert_eq!(kind_of(&vec!["staticlib".to_string(), "package".to_string()], "d"), Ok(ManifestKind::Build));
    let file = VangoFile::Build(PackageManifest::try_from(shimmy(), Platform::Linux).unwrap());
    assert_eq!(file.unwrap_build().name, "Shimmy");
}

#[test]
fn parse_buildfile() {
    let mut pkg = package("Shimmy", "C++20");
    pkg.defaults.include_dirs = vec!["headers".to_string()];
    let mut dbg = raw::BuildProfile::default();
    dbg.include_dirs = vec!["dbg_headers".to_string()];
    let mut dependencies = Vec::new();
    dependencies.push((
        "engine".to_string(),
        Dependency::Package { src: "../engine".to_string(), targets: vec![], features: vec![] },
    ));
    dependencies.push((
        "NavMesh".to_string(),
        Dependency::Package { src: "../../NavMesh".to_string(), targets: vec![], features: vec![] },
    ));
    dependencies.push((
        "SFML".to_string(),
        Dependency::Git {
            git: "https://github.com/SFML/SFML.git".to_string(),
            tag: None,
            features: vec!["graphics".to_string()],
        },
    ));
    dependencies.push((
        "LuaJIT".to_string(),
        Dependency::Git { git: "https://github.com/LuaJIT/LuaJIT.git".to_string(), tag: None, features: vec![] },
    ));
    let file = raw::BuildFile {
        package: pkg,
        vcpkg: None,
        dependencies: dependencies.clone(),
        profile: vec![("debug".to_string(), dbg)],
    };

    let m = match VangoFile::Build(PackageManifest::try_from(file, Platform::Linux).unwrap()) {
        VangoFile::Build(m) => m,
        VangoFile::Lib(_) => panic!(),
    };
    assert_eq!(m.name, "Shimmy");
    assert_eq!(m.version, Version::from_str("0.1.0").unwrap());
    assert_eq!(m.lang, Language::Cpp(120));
    assert_eq!(m.artefact, Artefact::Executable);
    assert!(!m.implib);
    assert_eq!(m.toolchain, None);
    assert_eq!(m.interface, Language::Cpp(120));
    assert_eq!(m.runtime, None);
    assert_eq!(m.vcpkg.triplet, "x64-linux");
    assert_eq!(m.dependencies, dependencies);
    assert_eq!(
        *m.get(&Profile::Debug).unwrap(),
        BuildProfile {
            include_dirs: vec!["src".to_string(), "headers".to_string(), "dbg_headers".to_string()],
            defines: vec!["VANGO_DEBUG".to_string()],
            ..BuildProfile::default_debug()
        }
    );
    assert_eq!(
        *m.get(&Profile::Release).unwrap(),
        BuildProfile {
            include_dirs: vec!["src".to_string(), "headers".to_string()],
            defines: vec!["VANGO_RELEASE".to_string()],
            ..BuildProfile::default_release()
        }
    );
}

#[test]
fn parse_libfile() {
    let mut defaults = libraw::LibProfile::default();
    defaults.include_dir = Some("include".to_string());
    defaults.defines = vec!["SFML_STATIC".to_string()];
    let bins: Vec<String> = ["sfml-network-s", "sfml-audio-s", "sfml-graphics-s", "sfml-window-s", "sfml-system-s"]
        .iter()
        .map(|s| s.to_string())
        .collect();
    let mut dbg = libraw::LibProfile::default();
    dbg.libdir = Some("bin/debug".to_string());
    dbg.binaries = bins.clone();
    let mut rel = libraw::LibProfile::default();
    rel.libdir = Some("bin/release".to_string());
    rel.binaries = bins.clone();
    let file = libraw::LibManifest {
        staticlib: libraw::Library {
            name: "SFML".to_string(),
            version: "3.0.1".to_string(),
            lang: "C++17".to_string(),
            defaults,
        },
        profile: vec![("debug".to_string(), dbg), ("release".to_string(), rel)],
    };

    let mut lib = match VangoFile::Lib(LibManifest::try_from(file).unwrap()) {
        VangoFile::Lib(l) => l,
        VangoFile::Build(_) => panic!(),
    };
    assert_eq!(lib.name, "SFML");
    assert_eq!(lib.version, Version::from_str("3.0.1").unwrap());
    assert_eq!(lib.lang, Language::from_str("C++17").unwrap());
    assert_eq!(
        lib.remove(&Profile::Debug).unwrap(),
        LibProfile {
            include_dir: "include".to_string(),
            libdir: "bin/debug".to_string(),
            binaries: bins.clone(),
            defines: vec!["VANGO_DEBUG".to_string(), "SFML_STATIC".to_string()],
        }
    );
    assert_eq!(
        lib.remove(&Profile::Release).unwrap(),
        LibProfile {
            include_dir: "include".to_string(),
            libdir: "bin/release".to_string(),
            binaries: bins,
            defines: vec!["VANGO_RELEASE".to_string(), "SFML_STATIC".to_string()],
        }
    );
}

#[test]
fn manifest_file_names() {
    assert_eq!(
        manifest_candidates(Platform::Linux),
        vec!["lnx.Vango.toml".to_string(), "mac.vango.toml".to_string(), "Vango.toml".to_string(), "vango.toml".to_string()]
    );
    assert_eq!(manifest_candidates(Platform::Windows)[0], "win.Vango.toml");
    assert_eq!(manifest_candidates(Platform::Macos)[0], "mac.Vango.toml");
}

#[test]
fn manifest_validate_keeps_library() {
    let lib = LibManifest::try_from(sfml()).unwrap();
    let mut kept = lib.validate("Game", Language::Cpp(120)).unwrap();
    assert_eq!(kept.name, "SFML");
    assert_eq!(kept.version, Version { major: 3, minor: 0, patch: 1 });
    assert_eq!(kept.remove(&Profile::Release).unwrap().libdir, "bin/release");
}

#[test]
fn manifest_remove_keeps_the_rest() {
    let mut file = shimmy();
    file.package.runtime = Some("static".to_string());
    let mut m = PackageManifest::try_from(file, Platform::Linux).unwrap();
    let name = m.name.clone();
    let version = m.version.clone();
    let lang = m.lang;
    let artefact = m.artefact;
    let interface = m.interface;
    let runtime = m.runtime.clone();
    let triplet = m.vcpkg.triplet.clone();
    let deps = m.dependencies.clone();
    assert!(m.remove(&Profile::Debug).is_ok());
    assert_eq!(m.name, name);
    assert_eq!(m.version, version);
    assert_eq!(m.lang, lang);
    assert_eq!(m.artefact, artefact);
    assert_eq!(m.interface, interface);
    assert_eq!(m.runtime, runtime);
    assert_eq!(m.vcpkg.triplet, triplet);
    assert_eq!(m.dependencies, deps);
    assert!(m.get(&Profile::Debug).is_err());
    assert!(m.get(&Profile::Release).is_ok());
    assert!(m.remove(&Profile::Debug).is_err());
    assert_eq!(m.version, version);
    assert!(m.get(&Profile::Release).is_ok());
}

#[test]
fn manifest_library_remove_keeps_version() {
    let mut lib = LibManifest::try_from(sfml()).unwrap();
    let version = lib.version.clone();
    assert!(lib.remove(&Profile::Release).is_ok());
    assert_eq!(lib.version, version);
    assert_eq!(lib.name, "SFML");
    assert!(lib.remove(&Profile::Release).is_err());
    assert_eq!(lib.version, version);
    assert!(lib.remove(&Profile::Debug).is_ok());
}
