use treejumper_nvim::error::Error;
use treejumper_nvim::parser::{Language, Parser};

#[test]
fn test_language_from_str() {
    assert_eq!(Language::from_str("rust").unwrap(), Language::Rust);
    assert_eq!(Language::from_str("python").unwrap(), Language::Python);
    assert_eq!(Language::from_str("c++").unwrap(), Language::Cpp);
}

#[test]
fn test_unsupported_language() {
    assert!(Language::from_str("unknown").is_err());
}

#[test]
fn test_file_extensions() {
    assert!(Language::Rust.file_extensions().contains(&"rs"));
    assert!(Language::Python.file_extensions().contains(&"py"));
}

#[test]
fn test_parser_creation() {
    let parser = Parser::new(Language::Rust);
    assert_eq!(parser.language(), Language::Rust);
}

#[test]
fn test_language_parsing() {
    let result = Language::from_str("rust");
    assert!(result.is_ok());
}

#[test]
fn resolution_ignores_case_and_accepts_aliases() {
    let upper = Language::from_str("RUST").unwrap();
    let alias = Language::from_str("rs").unwrap();
    let lower = Language::from_str("rust").unwrap();
    assert_eq!(upper, Language::Rust);
    assert_eq!(alias, upper);
    assert_eq!(lower, upper);
}

#[test]
fn unknown_language_keeps_input_verbatim() {
    assert_eq!(
        Language::from_str("cobol"),
        Err(Error::UnsupportedLanguage("cobol".to_string()))
    );
    assert_eq!(
        Language::from_str("CoBoL"),
        Err(Error::UnsupportedLanguage("CoBoL".to_string()))
    );
}

#[test]
fn every_alias_resolves() {
    let cases = [
        ("c", Language::C),
        ("C", Language::C),
        ("cpp", Language::Cpp),
        ("C++", Language::Cpp),
        ("Python", Language::Python),
        ("PY", Language::Python),
        ("Rs", Language::Rust),
        ("csharp", Language::CSharp),
        ("C#", Language::CSharp),
        ("cs", Language::CSharp),
    ];
    for (name, lang) in cases {
        assert_eq!(Language::from_str(name), Ok(lang));
    }
    assert!(Language::from_str("").is_err());
    assert!(Language::from_str("rust ").is_err());
}

#[test]
fn resolution_from_folded_name() {
    assert_eq!(Language::from_folded("cpp", "CPP"), Ok(Language::Cpp));
    assert_eq!(
        Language::from_folded("go", "Go"),
        Err(Error::UnsupportedLanguage("Go".to_string()))
    );
    assert!(Language::from_folded("RUST", "RUST").is_err());
}

#[test]
fn extensions_of_each_language() {
    assert_eq!(Language::C.file_extensions(), &["c", "h"]);
    assert_eq!(Language::Cpp.file_extensions(), &["cpp", "cc", "cxx", "hpp", "h"]);
    assert_eq!(Language::Python.file_extensions(), &["py"]);
    assert_eq!(Language::Rust.file_extensions(), &["rs"]);
    assert_eq!(Language::CSharp.file_extensions(), &["cs"]);
}

#[test]
fn parse_yields_no_nodes_yet() {
    for lang in [Language::C, Language::Cpp, Language::Python, Language::Rust, Language::CSharp] {
        let parser = Parser::new(lang);
        assert_eq!(parser.language(), lang);
        let nodes = parser.parse("fn main() {}").unwrap();
        assert!(nodes.is_empty());
    }
}
