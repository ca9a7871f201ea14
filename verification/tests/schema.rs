use json_schema::build_schema;
use json_schema::value_to_type;
use json_schema::JsonSchema;
use json_schema::JsonValue;

fn prop_type<'a>(schema: &'a JsonSchema, name: &str) -> &'a str {
    schema
        .property_type(&name.to_string())
        .expect("missing property")
        .type_tag
        .as_str()
}

#[test]
fn builds_simple_schema() {
    let data = r#"
        {
            "name": "John Doe",
            "age": 43,
            "phones": [
                "+44 1234567",
                "+44 2345678"
            ]
        }"#;

    let output = build_schema(data).expect("Could not parse json");

    assert_eq!(prop_type(&output, "name"), "string");
    assert_eq!(prop_type(&output, "phones"), "array");
    assert_eq!(prop_type(&output, "age"), "integer")
}

#[test]
fn builds_required_fields() {
    let data = r#"
        {
            "name": "John Doe",
            "age": 43,
            "phones": null
        }"#;

    let output = build_schema(data).expect("Could not parse json");
    let required = output.required;

    assert_eq!(required.len(), 2)
}

#[test]
fn properties_cover_all_top_level_keys() {
    let data = r#"{"name": "John Doe", "age": 43, "phones": ["+44 1234567", "+44 2345678"]}"#;
    let output = build_schema(data).expect("well-formed input");

    assert_eq!(output.properties.len(), 3);
    assert!(output.property_type(&"name".to_string()).is_some());
    assert!(output.property_type(&"age".to_string()).is_some());
    assert!(output.property_type(&"phones".to_string()).is_some());
    assert!(output.property_type(&"address".to_string()).is_none());
}

#[test]
fn required_holds_every_non_null_key() {
    let data = r#"{"name": "John Doe", "age": 43, "phones": ["+44 1234567", "+44 2345678"]}"#;
    let output = build_schema(data).expect("well-formed input");

    assert_eq!(output.required.len(), 3);
    assert!(output.required.contains(&"name".to_string()));
    assert!(output.required.contains(&"age".to_string()));
    assert!(output.required.contains(&"phones".to_string()));
}

#[test]
fn required_excludes_null_valued_keys() {
    let data = r#"{"name": "John Doe", "age": 43, "phones": null}"#;
    let output = build_schema(data).expect("well-formed input");

    assert_eq!(output.required.len(), 2);
    assert!(output.required.contains(&"name".to_string()));
    assert!(output.required.contains(&"age".to_string()));
    assert!(!output.required.contains(&"phones".to_string()));
    assert_eq!(prop_type(&output, "phones"), "null");
}

#[test]
fn malformed_input_fails_with_parse_error() {
    let result = build_schema("{");
    let err = result.err().expect("malformed input must fail");
    assert_eq!(err.line, 1);
    assert!(!err.message.is_empty());
}

#[test]
fn non_object_root_yields_empty_schema() {
    let output = build_schema("3.14").expect("a bare number is well-formed JSON");
    assert!(output.properties.is_empty());
    assert!(output.required.is_empty());
}

#[test]
fn schema_metadata_is_fixed() {
    let output = build_schema("{}").expect("well-formed input");
    assert_eq!(output.schema, "https://json-schema.org/draft/2020-12/schema");
    assert_eq!(output.id, "");
    assert!(output.title.is_none());
    assert!(output.description.is_none());
    assert!(output.properties.is_empty());
    assert!(output.required.is_empty());
}

#[test]
fn classifies_every_kind_of_value() {
    assert_eq!(value_to_type(&JsonValue::Int(-7)), "integer");
    assert_eq!(value_to_type(&JsonValue::Uint(u64::MAX)), "integer");
    assert_eq!(value_to_type(&JsonValue::Float), "float");
    assert_eq!(value_to_type(&JsonValue::BigNumber), "number");
    assert_eq!(value_to_type(&JsonValue::Text("hi".to_string())), "string");
    assert_eq!(value_to_type(&JsonValue::Array(vec![])), "array");
    assert_eq!(value_to_type(&JsonValue::Bool(false)), "boolean");
    assert_eq!(value_to_type(&JsonValue::Null), "null");
    assert_eq!(value_to_type(&JsonValue::Object(vec![])), "object");
}

#[test]
fn classification_is_deterministic() {
    let v = JsonValue::Int(43);
    let first = value_to_type(&v);
    let second = value_to_type(&v);
    assert_eq!(first, second);
    assert_eq!(first, "integer");
}

#[test]
fn integer_valued_numbers_are_never_floats() {
    let data = r#"{"whole": 43, "fractional": 43.5, "written_as_float": 43.0}"#;
    let output = build_schema(data).expect("well-formed input");

    assert_eq!(prop_type(&output, "whole"), "integer");
    assert_eq!(prop_type(&output, "fractional"), "float");
    assert_eq!(prop_type(&output, "written_as_float"), "float");

    let big = format!("{{\"huge\": {}}}", u64::MAX);
    let output = build_schema(&big).expect("well-formed input");
    assert_eq!(prop_type(&output, "huge"), "integer");
}

#[test]
fn nested_values_stay_shallow() {
    let data = r#"{"inner": {"deep": 1}, "items": [1, 2.5, null]}"#;
    let output = build_schema(data).expect("well-formed input");

    assert_eq!(prop_type(&output, "inner"), "object");
    assert_eq!(prop_type(&output, "items"), "array");
    assert_eq!(output.properties.len(), 2);
}
