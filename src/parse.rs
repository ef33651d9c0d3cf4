//! The IDL formats and the parser's error taxonomy.
use vstd::prelude::*;
use crate::text::text_eq;

verus! {

/// The text formats an IDL may be written in.
#[derive(Debug, Clone, Copy, PartialEq, Eq, Structural)]
pub enum Format {
    Yaml,
    Json,
    Toml,
}

/// One error shape for every format; `line` and `column` are 0 where the
/// decoder gives no position.
#[derive(Debug, Clone, PartialEq, Eq)]
pub enum ParseError {
    UnsupportedFormat(String),
    Yaml { line: usize, column: usize, message: String },
    Toml { line: usize, column: usize, message: String },
    Json { line: usize, column: usize, message: String },
}

/// The format named by a tag: `yaml` or `yml`, `json`, `toml`.
pub open spec fn format_of_tag(tag: Seq<char>) -> Option<Format> {
    if tag == "yaml"@ || tag == "yml"@ {
        Some(Format::Yaml)
    } else if tag == "json"@ {
        Some(Format::Json)
    } else if tag == "toml"@ {
        Some(Format::Toml)
    } else {
        None
    }
}

/// The format named by a tag, or `UnsupportedFormat` carrying the tag.
pub fn format_from_tag(tag: &str) -> (r: Result<Format, ParseError>)
    ensures
        match format_of_tag(tag@) {
            Some(f) => r == Ok::<Format, ParseError>(f),
            None => r matches Err(ParseError::UnsupportedFormat(t)) && t@ == tag@,
        },
{
    if text_eq(tag, "yaml") || text_eq(tag, "yml") {
        Ok(Format::Yaml)
    } else if text_eq(tag, "json") {
        Ok(Format::Json)
    } else if text_eq(tag, "toml") {
        Ok(Format::Toml)
    } else {
        Err(ParseError::UnsupportedFormat(String::from_str(tag)))
    }
}

/// The format of an IDL file with extension `ext` (`yml`, `yaml`, `json`,
/// `toml`); `None` for any other.
pub fn format_for_extension(ext: &str) -> (r: Option<Format>)
    ensures
        r == format_of_tag(ext@),
{
    match format_from_tag(ext) {
        Ok(f) => Some(f),
        Err(_) => None,
    }
}

/// The error for a decoder failure in format `f`.
pub fn decode_error(f: Format, line: usize, column: usize, message: String) -> (r: ParseError)
    ensures
        r == match f {
            Format::Yaml => ParseError::Yaml { line, column, message },
            Format::Json => ParseError::Json { line, column, message },
            Format::Toml => ParseError::Toml { line, column, message },
        },
{
    match f {
        Format::Yaml => ParseError::Yaml { line, column, message },
        Format::Json => ParseError::Json { line, column, message },
        Format::Toml => ParseError::Toml { line, column, message },
    }
}

} // verus!
