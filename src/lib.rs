//! Validation of multi-version poem documents: structural checking against a
//! JSON schema, and an optional strict check of each version's language tag.
pub mod codes;
pub mod document;
pub mod error;
pub mod language;
pub mod poem;
pub mod schema;
pub mod tag;
