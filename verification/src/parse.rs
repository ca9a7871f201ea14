use vstd::prelude::*;

use serde_json::Value;

use crate::value::top_keys;
use crate::value::JsonValue;

verus! {

/// The single failure of schema building: the input text is not well-formed
/// JSON.  It carries the position (one-based line and column) and the message
/// of the underlying syntax error, so a caller can report the bad input.
#[derive(Debug)]
pub struct ParseError {
    pub line: usize,
    pub column: usize,
    pub message: String,
}

/// `serde_json::Value`, carried opaquely through the embedding below.
#[verifier::external_type_specification]
#[verifier::external_body]
pub struct ExValue(serde_json::Value);

/// What parsing a JSON text yields: a value tree on well-formed input, a
/// parse error on anything else.  `serde_json::from_str` computes its result
/// (and, on failure, the error's position and message) from the input text
/// alone, so the outcome is one fixed function of the text.
pub uninterp spec fn spec_parse(text: Seq<char>) -> Result<JsonValue, ParseError>;

/// Embeds serde_json's value tree into the library's model, one variant for
/// one.  Relies on `serde_json::Number::as_i64`, `as_u64` and `is_f64` to
/// split numbers into 64-bit-integer-representable ones, unsigned ones above
/// `i64::MAX`, floating-point ones, and the catch-all rest, in that order.
#[verifier::external_body]
fn of_serde(v: Value) -> JsonValue {
    match v {
        Value::Null => JsonValue::Null,
        Value::Bool(b) => JsonValue::Bool(b),
        Value::Number(n) => match (n.as_i64(), n.as_u64()) {
            (Some(i), _) => JsonValue::Int(i),
            (None, Some(u)) => JsonValue::Uint(u),
            (None, None) if n.is_f64() => JsonValue::Float,
            (None, None) => JsonValue::BigNumber,
        },
        Value::String(s) => JsonValue::Text(s),
        Value::Array(items) => JsonValue::Array(items.into_iter().map(of_serde).collect()),
        Value::Object(ms) => JsonValue::Object(ms.into_iter().map(|(k, m)| (k, of_serde(m))).collect()),
    }
}

/// Relies on `serde_json::from_str::<serde_json::Value>`: it parses the text
/// into a value tree, deterministically in the text, and reports a syntax
/// error (with `Error::line`, `Error::column` and its display message)
/// exactly when the text is not well-formed JSON.  The top-level keys of a
/// parsed object are free of duplicates because `serde_json::Map` is backed
/// by a `BTreeMap`, which holds each key at most once.
#[verifier::external_body]
pub(crate) fn parse_json(data: &str) -> (r: Result<JsonValue, ParseError>)
    ensures
        r == spec_parse(data@),
        r matches Ok(v) ==> top_keys(v).no_duplicates(),
{
    match serde_json::from_str::<serde_json::Value>(data) {
        Ok(v) => Ok(of_serde(v)),
        Err(e) => Err(ParseError { line: e.line(), column: e.column(), message: e.to_string() }),
    }
}

} // verus!
