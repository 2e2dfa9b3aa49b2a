//! JSON text, read and rendered by `serde_json`.
//!
//! A parsed value is carried as `serde_json::Value`; this library never looks
//! inside one. What the parser and the printer return is given a name, so
//! that contracts can say which text led to which value without restating
//! the JSON grammar.

use vstd::prelude::*;

verus! {

#[verifier::external_type_specification]
#[verifier::external_body]
pub struct ExValue(serde_json::Value);

#[verifier::external_type_specification]
#[verifier::external_body]
pub struct ExError(serde_json::Error);

/// The parser's broad reason for refusing a text.
#[derive(Clone, Copy, Debug, PartialEq, Eq, Structural)]
pub enum FaultKind {
    /// Bytes could not be read or written.
    Io,
    /// The text is not syntactically valid JSON.
    Syntax,
    /// The text is JSON of the wrong shape.
    Data,
    /// The text ends in the middle of a value.
    Eof,
}

/// Where and why the parser refused a text.
#[derive(Clone, Copy, Debug, PartialEq, Eq, Structural)]
pub struct JsonFault {
    /// The line at which the parser stopped, counted from one.
    pub line: usize,
    /// The column at which the parser stopped, counted from one; zero where
    /// it stopped before the first character of a line.
    pub column: usize,
    /// The parser's reason.
    pub kind: FaultKind,
}

/// What `serde_json::from_str` makes of a text when asked for a
/// `serde_json::Value`.
pub uninterp spec fn json_parse(text: Seq<char>) -> Result<serde_json::Value, serde_json::Error>;

/// The line that a parse error reports.
pub uninterp spec fn json_error_line(error: serde_json::Error) -> usize;

/// The column that a parse error reports.
pub uninterp spec fn json_error_column(error: serde_json::Error) -> usize;

/// The category that a parse error reports.
pub uninterp spec fn json_error_kind(error: serde_json::Error) -> FaultKind;

/// What `serde_json::to_string_pretty` makes of a value.
pub uninterp spec fn json_pretty(value: serde_json::Value) -> Result<Seq<char>, serde_json::Error>;

/// The position and reason that a parse error reports.
pub open spec fn fault_of(error: serde_json::Error) -> JsonFault {
    JsonFault {
        line: json_error_line(error),
        column: json_error_column(error),
        kind: json_error_kind(error),
    }
}

/// A parse result with the parser's error replaced by its position and
/// reason.
pub open spec fn reading(parsed: Result<serde_json::Value, serde_json::Error>) -> Result<
    serde_json::Value,
    JsonFault,
> {
    match parsed {
        Ok(value) => Ok(value),
        Err(error) => Err(fault_of(error)),
    }
}

/// The pretty text that is shown for a value: none unless asked for, and
/// none where the printer fails.
pub open spec fn rendering(value: serde_json::Value, pretty: bool) -> Option<Seq<char>> {
    if pretty {
        match json_pretty(value) {
            Ok(text) => Some(text),
            Err(_) => None,
        }
    } else {
        None
    }
}

/// `serde_json::from_str` at the type `serde_json::Value`. The result
/// depends on the text alone: the same text gives the same value or the same
/// error.
#[verifier::external_body]
fn from_text(text: &str) -> (parsed: Result<serde_json::Value, serde_json::Error>)
    ensures
        parsed == json_parse(text@),
{
    serde_json::from_str::<serde_json::Value>(text)
}

/// `serde_json::to_string_pretty` on a `serde_json::Value`. The result
/// depends on the value alone.
#[verifier::external_body]
fn to_pretty_text(value: &serde_json::Value) -> (printed: Result<String, serde_json::Error>)
    ensures
        match printed {
            Ok(text) => json_pretty(*value) == Ok::<Seq<char>, serde_json::Error>(text@),
            Err(error) => json_pretty(*value) == Err::<Seq<char>, serde_json::Error>(error),
        },
{
    serde_json::to_string_pretty(value)
}

/// `serde_json::Error::line`: the one-based line at which the error was
/// found.
pub assume_specification[ serde_json::Error::line ](error: &serde_json::Error) -> (line: usize)
    ensures
        line == json_error_line(*error),
;

/// `serde_json::Error::column`: the one-based column at which the error was
/// found.
pub assume_specification[ serde_json::Error::column ](error: &serde_json::Error) -> (column: usize)
    ensures
        column == json_error_column(*error),
;

/// `serde_json::Error::classify`, with each of the four categories mapped to
/// the variant of the same name.
#[verifier::external_body]
fn kind_of(error: &serde_json::Error) -> (kind: FaultKind)
    ensures
        kind == json_error_kind(*error),
{
    match error.classify() {
        serde_json::error::Category::Io => FaultKind::Io,
        serde_json::error::Category::Syntax => FaultKind::Syntax,
        serde_json::error::Category::Data => FaultKind::Data,
        serde_json::error::Category::Eof => FaultKind::Eof,
    }
}

/// Replaces the parser's error by its position and reason; a parsed value
/// passes through.
pub fn settle(parsed: Result<serde_json::Value, serde_json::Error>) -> (r: Result<
    serde_json::Value,
    JsonFault,
>)
    ensures
        r == reading(parsed),
{
    match parsed {
        Ok(value) => Ok(value),
        Err(error) => Err(
            JsonFault { line: error.line(), column: error.column(), kind: kind_of(&error) },
        ),
    }
}

/// Parses a text as one JSON value.
pub fn parse(text: &str) -> (r: Result<serde_json::Value, JsonFault>)
    ensures
        r == reading(json_parse(text@)),
{
    settle(from_text(text))
}

/// The pretty-printed text of a value, where `pretty` asks for it and the
/// printer succeeds.
pub fn render(value: &serde_json::Value, pretty: bool) -> (text: Option<String>)
    ensures
        match text {
            Some(t) => rendering(*value, pretty) == Some(t@),
            None => rendering(*value, pretty) is None,
        },
{
    if pretty {
        match to_pretty_text(value) {
            Ok(t) => Some(t),
            Err(_) => None,
        }
    } else {
        None
    }
}

} // verus!
