//! A real schema kept in step with its migrations: the table definitions
//! of each schema version, the current version, and the chain of updates
//! that brings an old database to it.

pub mod helpers;
pub mod new_row_helper;
pub mod schema_versions;
pub mod schemas;
pub mod update_from_old_schema;
