//! Cards: their columns and order, dependencies, labels, assignees, checklists
//! and comments.
pub mod assignee;

pub mod bulk_labels;

pub mod checklist;

pub mod comment;

pub mod create;

pub mod dependency;

pub mod model;

pub mod moving;

pub mod read;

pub mod reference;

pub mod step;

pub mod touch;

pub mod update;
