//! Resolves the database connection parameters of a project from its YAML
//! configuration and prepares the launch of a database client with them.

pub mod database_config;
pub mod decimal;
pub mod launcher;
pub mod yaml;
