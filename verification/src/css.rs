//! The styling engine's value types, the declaration cascade and themes.
pub mod cascade;
pub mod theme;
pub mod types;
