//! Typed validation of environment variables, with every failure of a
//! schema reported together.
//!
//! A [`Schema`] lists variables, each with a type, whether it is required, an
//! optional default and an optional list of accepted texts.
//! [`Schema::validate_from`] checks a source of variables against it and
//! returns either the parsed values or a [`ValidationError`] holding one
//! message per failing variable.
pub mod error;
pub mod laws;
pub mod schema;
pub mod text;
pub mod validate;
pub mod value;

pub use error::ValidationError;
pub use schema::{FieldSpec, FieldSpecBuilder, FieldType, Schema};
pub use value::EnvValue;
pub use vstd::hash_map::StringHashMap;
