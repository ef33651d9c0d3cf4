use weaveffi::abi::strip_nuls;
use weaveffi::parse::{format_for_extension, format_from_tag};
use weaveffi::scaffold::{render_new_idl, render_new_readme, sanitize_lowered, sanitize_module_name};
use weaveffi::{Format, ParseError};

#[test]
fn module_name_from_project_name() {
    assert_eq!(sanitize_module_name("My-Project 2!"), "my_project_2");
    assert_eq!(sanitize_module_name("ABC"), "abc");
    assert_eq!(sanitize_module_name("!!!"), "module");
    assert_eq!(sanitize_module_name(""), "module");
}

#[test]
fn module_name_from_lowered_text() {
    assert_eq!(sanitize_lowered("a-b_c d.e"), "a_b_c_de");
    assert_eq!(sanitize_lowered("é"), "module");
}

#[test]
fn format_tags() {
    assert_eq!(format_from_tag("yaml"), Ok(Format::Yaml));
    assert_eq!(format_from_tag("yml"), Ok(Format::Yaml));
    assert_eq!(format_from_tag("json"), Ok(Format::Json));
    assert_eq!(format_from_tag("toml"), Ok(Format::Toml));
    assert_eq!(format_from_tag("xml"), Err(ParseError::UnsupportedFormat("xml".to_string())));
}

#[test]
fn format_from_extension() {
    assert_eq!(format_for_extension("yml"), Some(Format::Yaml));
    assert_eq!(format_for_extension("toml"), Some(Format::Toml));
    assert_eq!(format_for_extension("txt"), None);
}

#[test]
fn nul_characters_are_removed() {
    assert_eq!(strip_nuls("a\0b\0"), "ab");
    assert_eq!(strip_nuls("plain"), "plain");
    assert_eq!(strip_nuls(""), "");
}

#[test]
fn new_project_texts() {
    let idl = render_new_idl("demo");
    assert!(idl.starts_with("version: \"0.1.0\"\nmodules:\n  - name: demo\n    functions:\n"));
    assert!(idl.contains("      - name: echo\n"));
    assert!(render_new_readme("Demo").starts_with("# Demo\n\n"));
}
