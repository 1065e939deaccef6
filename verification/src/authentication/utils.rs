//! Helpers shared by the request builders.
pub mod json;
pub mod query_string_builder;
pub mod time;
