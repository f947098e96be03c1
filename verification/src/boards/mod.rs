//! Boards, their columns and their live streams.
pub mod columns;

pub mod model;

pub mod service;
