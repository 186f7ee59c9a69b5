//! Terminal interface: view state, events, key handling and text layout helpers.

pub mod ui;
pub mod app;
pub mod event;
pub mod state;
