//! pinchtask: task, checklist and project management logic shared by the
//! command line, the terminal interface and the MCP server.

pub mod text;
pub mod models;
pub mod error;
pub mod ids;
pub mod logic;
pub mod tui;
pub mod tools;
pub mod server;
pub mod cli;
pub mod transport;
