use vango::config::{Artefact, Language, Platform, Profile, Version};
use vango::error::Error;

#[test]
pub fn elems_parse_lang_cpp() {
    assert_eq!(Language::from_str("c++98").unwrap(), Language::Cpp(98));
    assert_eq!(Language::from_str("c++03").unwrap(), Language::Cpp(103));
    assert_eq!(Language::from_str("c++11").unwrap(), Language::Cpp(111));
    assert_eq!(Language::from_str("c++14").unwrap(), Language::Cpp(114));
    assert_eq!(Language::from_str("C++17").unwrap(), Language::Cpp(117));
    assert_eq!(Language::from_str("C++20").unwrap(), Language::Cpp(120));
    assert_eq!(Language::from_str("C++23").unwrap(), Language::Cpp(123));
}

#[test]
pub fn elems_parse_lang_c() {
    assert_eq!(Language::from_str("c89").unwrap(), Language::C(89));
    assert_eq!(Language::from_str("c99").unwrap(), Language::C(99));
    assert_eq!(Language::from_str("C11").unwrap(), Language::C(111));
    assert_eq!(Language::from_str("C17").unwrap(), Language::C(117));
    assert_eq!(Language::from_str("C23").unwrap(), Language::C(123));
}

#[test]
pub fn elems_parse_lang_err() {
    assert!(Language::from_str("3").is_err());
    assert!(Language::from_str("c").is_err());
    assert!(Language::from_str("c4").is_err());
    assert!(Language::from_str("c14").is_err());
    assert!(Language::from_str("c20").is_err());
    assert!(Language::from_str("c++").is_err());
    assert!(Language::from_str("c++24").is_err());
    assert!(Language::from_str("c++12").is_err());
    assert!(Language::from_str("abcde").is_err());
}

#[test]
pub fn lang_cmp() {
    assert!(Language::from_str("C99").unwrap() > Language::from_str("C89").unwrap());
    assert!(Language::from_str("C11").unwrap() > Language::from_str("C89").unwrap());
    assert!(Language::from_str("C89").unwrap() >= Language::from_str("C89").unwrap());
    assert!(Language::from_str("C99").unwrap() >= Language::from_str("C89").unwrap());
    assert!(Language::from_str("C11").unwrap() >= Language::from_str("C99").unwrap());
    assert!(Language::from_str("C++03").unwrap() > Language::from_str("C++98").unwrap());
    assert!(Language::from_str("C++11").unwrap() > Language::from_str("C++98").unwrap());
    assert!(Language::from_str("C++98").unwrap() >= Language::from_str("C++98").unwrap());
    assert!(Language::from_str("C++03").unwrap() >= Language::from_str("C++98").unwrap());
    assert!(Language::from_str("C++11").unwrap() >= Language::from_str("C++98").unwrap());
}

#[test]
fn elems_language_error_text_and_order() {
    assert_eq!(Language::from_str("C++24"), Err(Error::InvalidCppStd("c++24".to_string())));
    assert!(Language::Cpp(98) > Language::C(123));
    assert_eq!(Language::Cpp(117).to_string(), "c++17");
    assert_eq!(Language::C(89).to_string(), "c89");
    assert_eq!(Language::from_str("c++03").unwrap().to_string(), "c++3");
    for text in ["c++98", "c++11", "c++14", "c++17", "c++20", "c++23", "c89", "c99", "c11", "c17", "c23"] {
        assert_eq!(Language::from_str(text).unwrap().to_string(), text);
    }
    assert_eq!(Language::Cpp(120).src_ext(), "cpp");
    assert_eq!(Language::C(99).src_ext(), "c");
}

#[test]
fn elems_version_roundtrip() {
    let v = Version::from_str("3.0.12").unwrap();
    assert_eq!(v, Version { major: 3, minor: 0, patch: 12 });
    assert_eq!(v.to_string(), "3.0.12");
    assert_eq!(Version::from_str("1.2"), Err(Error::MimicTomlSemver("1.2".to_string())));
    assert_eq!(Version::from_str("1.2.3.4"), Err(Error::MimicTomlSemver("1.2.3.4".to_string())));
    assert_eq!(Version::from_str("1.x.3"), Err(Error::MimicTomlSemver("1.x.3".to_string())));
}

#[test]
fn elems_profiles() {
    assert_eq!(Profile::from_str("release"), Ok(Profile::Release));
    assert_eq!(Profile::from_str("fast"), Ok(Profile::Custom("fast".to_string())));
    assert_eq!(Profile::Debug.as_define(), Some("VANGO_DEBUG"));
    assert_eq!(Profile::Custom("x".to_string()).as_define(), None);
    assert_eq!(Profile::Custom("x".to_string()).as_arg(), "--profile=x");
    assert_eq!(Profile::Release.to_string(), "release");
    assert!(Profile::Debug.is_debug() && !Profile::Debug.is_release());
}

#[test]
fn elems_artefacts_and_platforms() {
    assert_eq!(Artefact::from_str("sharedlib"), Ok(Artefact::SharedLib));
    assert_eq!(Artefact::from_str("dll"), Err(Error::MimicTomlArtefact("dll".to_string())));
    assert!(Artefact::StaticLib.is_lib() && !Artefact::Executable.is_lib());
    assert_eq!(Platform::Linux.fmt_shared_lib("sfml"), "libsfml.so");
    assert_eq!(Platform::Macos.fmt_shared_lib("sfml"), "libsfml.dylib");
    assert_eq!(Platform::Windows.fmt_shared_lib("sfml"), "sfml.dll");
    assert_eq!(Platform::current("linux"), Ok(Platform::Linux));
    assert_eq!(Platform::current("freebsd"), Err(Error::PlatformUnavailable));
}
