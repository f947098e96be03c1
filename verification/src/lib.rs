//! The rules behind the Sunbeam Kanban services.
//!
//! Every service call is decided here: which requests are refused and with
//! what status, which rows change and how, what is written to the event log,
//! and what is answered. The functions take what the database, the permission
//! backend, GitHub or the object store returned as plain values and say what to
//! do next; performing it is left to the program around the library.
pub mod aggregated_boards;

pub mod attachments;

pub mod auth;

pub mod boards;

pub mod cards;

pub mod clock;

pub mod context;

pub mod event;

pub mod forgejo;

pub mod github;

pub mod json;

pub mod labels;

pub mod mask;

pub mod milestones;

pub mod number;

pub mod page;

pub mod permission;

pub mod position;

pub mod status;

pub mod stream;

pub mod text;

pub mod timestamp;

pub mod visibility;
