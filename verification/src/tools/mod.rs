//! Parameters of the MCP tools and their JSON Schemas.

pub mod params;
pub mod schema;
