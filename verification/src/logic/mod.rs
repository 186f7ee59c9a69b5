//! Business logic shared by the command line, the terminal interface and the
//! MCP server: pure operations on tasks and projects.

pub mod item;
pub mod note;
pub mod resource;
pub mod task;
pub mod project;
pub mod resolve;
pub mod workspace;
