//! What a release's manifest holds.
pub mod argument;
pub mod data;
pub mod library;
pub mod rule;
