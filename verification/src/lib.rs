//! Infers a JSON Schema (draft 2020-12 style) document from a single example
//! JSON payload.  Given one JSON text, the library parses it, gives each
//! top-level field of the root object an inferred primitive type tag, and
//! lists as required every top-level field whose example value is not null.
//! Nested objects and arrays are intentionally shallow-typed: they receive the
//! generic `"object"` / `"array"` tags and no sub-schema.

pub mod parse;
pub mod schema;
pub mod value;

pub use parse::ParseError;
pub use schema::build_schema;
pub use schema::JsonSchema;
pub use schema::JsonSchemaProperty;
pub use value::value_to_type;
pub use value::JsonValue;
