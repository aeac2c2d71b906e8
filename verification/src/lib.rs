//! Code generation for the canonical JSON mapping of protocol-message schemas.
//!
//! Given the descriptors of the enums and messages of a schema
//! ([`descriptor`]), the generators ([`generator`]) write, for each type, the
//! serde impls that carry the type to JSON and back: for an enum its name
//! table and the procedures between discriminants and strings, for a message
//! the impls that write the fields that are present and read them under
//! either of their names, and for a well-known message the block that
//! registers it under its type URL.
//!
//! What the generated code is to do is stated here too, on values instead of
//! text: [`enum_mapping`] and [`message_mapping`] carry out the mapping on
//! the descriptors themselves, and [`laws`] holds what is proved of it.

pub mod decimal;
pub mod descriptor;
pub mod enum_mapping;
pub mod error;
pub mod generator;
pub mod indent;
pub mod json;
pub mod laws;
pub mod message_mapping;
pub mod search;
pub mod text;
pub mod validation;
pub mod value;
