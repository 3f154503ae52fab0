use vango::repr::{Config, Lang, ProjKind, ToolChain};
use vango::config::Platform;

#[test]
pub fn mod_parse_lang_cpp() {
    assert_eq!(Lang::try_from("c++98").unwrap(), Lang::Cpp(98));
    assert_eq!(Lang::try_from("c++03").unwrap(), Lang::Cpp(103));
    assert_eq!(Lang::try_from("c++11").unwrap(), Lang::Cpp(111));
    assert_eq!(Lang::try_from("c++14").unwrap(), Lang::Cpp(114));
    assert_eq!(Lang::try_from("C++17").unwrap(), Lang::Cpp(117));
    assert_eq!(Lang::try_from("C++20").unwrap(), Lang::Cpp(120));
    assert_eq!(Lang::try_from("C++23").unwrap(), Lang::Cpp(123));
}

#[test]
pub fn mod_parse_lang_c() {
    assert_eq!(Lang::try_from("c89").unwrap(), Lang::C(89));
    assert_eq!(Lang::try_from("c99").unwrap(), Lang::C(99));
    assert_eq!(Lang::try_from("C11").unwrap(), Lang::C(111));
    assert_eq!(Lang::try_from("C17").unwrap(), Lang::C(117));
    assert_eq!(Lang::try_from("C20").unwrap(), Lang::C(120));
    assert_eq!(Lang::try_from("C23").unwrap(), Lang::C(123));
}

#[test]
pub fn mod_parse_lang_err() {
    assert!(Lang::try_from("c++24").is_err());
    assert!(Lang::try_from("c++").is_err());
    assert!(Lang::try_from("c14").is_err());
    assert!(Lang::try_from("c4").is_err());
    assert!(Lang::try_from("c").is_err());
    assert!(Lang::try_from("3").is_err());
}

#[test]
fn repr_lang_text_and_order() {
    assert_eq!(Lang::C(120).to_string(), "c20");
    assert_eq!(Lang::Cpp(103).numeric(), 3);
    assert!(Lang::Cpp(123).is_latest());
    assert!(Lang::Cpp(98) > Lang::C(123));
    assert!(Lang::C(89) < Lang::C(99));
    assert_eq!(Lang::Cpp(111).src_ext(), ".cpp");
}

#[test]
fn repr_toolchains_and_configs() {
    assert_eq!(ToolChain::host_default(Platform::Linux), ToolChain::Gnu);
    assert_eq!(ToolChain::host_default(Platform::Windows), ToolChain::Msvc);
    assert_eq!(Config::Debug.as_define(), "DEBUG");
    assert_eq!(Config::Release.to_string(), "release");
    assert!(ToolChain::Gnu.is_gnu());
    let _ = ProjKind::App;
}

#[test]
fn repr_description_defaults() {
    assert_eq!(vango::repr::defs::src_def(), "src/");
    assert_eq!(vango::repr::defs::inc_def(), vec!["src/".to_string()]);
}

#[test]
fn lang_number_read_back() {
    assert_eq!(Lang::try_from("c++03").unwrap().numeric(), 3);
    assert_eq!(Lang::try_from("c++98").unwrap().numeric(), 98);
    assert_eq!(Lang::try_from("C++20").unwrap().numeric(), 20);
    assert_eq!(Lang::try_from("c20").unwrap().numeric(), 20);
    assert_eq!(Lang::try_from("c89").unwrap().numeric(), 89);
    assert_eq!(Lang::try_from("c11").unwrap().numeric(), 11);
}
