use vstd::prelude::*;

verus! {

/// One parsed JSON value.
///
/// This is the library's own model of a JSON value tree.  Numbers are split
/// the way schema inference needs them: `Int` and `Uint` hold numbers exactly
/// representable as 64-bit signed or unsigned integers, `Float` stands for a
/// number only representable as a 64-bit floating-point value (its magnitude
/// plays no part in schema inference, so no payload is kept), and `BigNumber`
/// is the defensive catch-all for numeric representations that fit neither.
#[derive(Debug)]
pub enum JsonValue {
    Null,
    Bool(bool),
    Int(i64),
    Uint(u64),
    Float,
    BigNumber,
    Text(String),
    Array(Vec<JsonValue>),
    Object(Vec<(String, JsonValue)>),
}

/// The type tag that schema inference assigns to a value.
///
/// The ordering of the original decision chain (integer before float before
/// generic number, then array, string, boolean, null, object) is resolved here
/// by the variant split of `JsonValue`: each variant has exactly one tag, so
/// the function is total and deterministic by construction.  The closed
/// variant set makes a `"unknown"` fallback branch unreachable; the tag still
/// belongs to the closed tag set (see `is_type_tag`).
pub open spec fn spec_value_type(v: JsonValue) -> Seq<char> {
    match v {
        JsonValue::Int(_) => "integer"@,
        JsonValue::Uint(_) => "integer"@,
        JsonValue::Float => "float"@,
        JsonValue::BigNumber => "number"@,
        JsonValue::Array(_) => "array"@,
        JsonValue::Text(_) => "string"@,
        JsonValue::Bool(_) => "boolean"@,
        JsonValue::Null => "null"@,
        JsonValue::Object(_) => "object"@,
    }
}

/// The closed set of type tags a schema property may carry.
pub open spec fn is_type_tag(t: Seq<char>) -> bool {
    ||| t == "integer"@
    ||| t == "float"@
    ||| t == "number"@
    ||| t == "array"@
    ||| t == "string"@
    ||| t == "boolean"@
    ||| t == "null"@
    ||| t == "object"@
    ||| t == "unknown"@
}

/// Maps one JSON value to its inferred schema type tag.
pub fn value_to_type(value: &JsonValue) -> (t: String)
    ensures
        t@ == spec_value_type(*value),
{
    match value {
        JsonValue::Int(_) | JsonValue::Uint(_) => "integer".to_owned(),
        JsonValue::Float => "float".to_owned(),
        JsonValue::BigNumber => "number".to_owned(),
        JsonValue::Array(_) => "array".to_owned(),
        JsonValue::Text(_) => "string".to_owned(),
        JsonValue::Bool(_) => "boolean".to_owned(),
        JsonValue::Null => "null".to_owned(),
        JsonValue::Object(_) => "object".to_owned(),
    }
}

impl JsonValue {
    /// True exactly when the value is JSON null.
    pub fn is_null(&self) -> (b: bool)
        ensures
            b == (*self is Null),
    {
        match self {
            JsonValue::Null => true,
            _ => false,
        }
    }
}

/// The member list of the root object, or the empty sequence when the root is
/// not an object.
pub open spec fn top_members(v: JsonValue) -> Seq<(String, JsonValue)> {
    match v {
        JsonValue::Object(members) => members@,
        _ => Seq::empty(),
    }
}

/// The keys of a member list, in member order.
pub open spec fn member_keys(ms: Seq<(String, JsonValue)>) -> Seq<Seq<char>> {
    ms.map_values(|m: (String, JsonValue)| m.0@)
}

/// The top-level keys of the value, in member order.
pub open spec fn top_keys(v: JsonValue) -> Seq<Seq<char>> {
    member_keys(top_members(v))
}

/// Classification always stays inside the closed tag set.
pub proof fn lemma_value_type_is_tag(v: JsonValue)
    ensures
        is_type_tag(spec_value_type(v)),
{
}

/// Classification is total and deterministic: equal values always receive the
/// same type tag, however often they are classified.
pub proof fn lemma_value_type_deterministic(a: JsonValue, b: JsonValue)
    requires
        a == b,
    ensures
        spec_value_type(a) == spec_value_type(b),
{
}

/// A number that fits a 64-bit integer representation is always tagged
/// `"integer"`, never `"float"` and never `"number"`.
pub proof fn lemma_integer_value_tag(v: JsonValue)
    requires
        v is Int || v is Uint,
    ensures
        spec_value_type(v) == "integer"@,
        spec_value_type(v) != "float"@,
        spec_value_type(v) != "number"@,
{
    reveal_strlit("integer");
    reveal_strlit("float");
    reveal_strlit("number");
}

} // verus!
