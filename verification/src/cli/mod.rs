//! Command-line interface: what each command selects, changes and prints.

pub mod checklist;
pub mod error;
pub mod output;
pub mod resolve;
pub mod task;
pub mod item;
pub mod note;
pub mod project;
