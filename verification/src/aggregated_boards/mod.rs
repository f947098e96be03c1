//! Aggregated boards: read-only views over a list of source boards.
//!
//! An aggregated board has no cards of its own. What a caller sees of it are
//! the cards of those of its source boards that the caller may see.
pub mod create;

pub mod model;

pub mod read;

pub mod service;

pub mod sources;
