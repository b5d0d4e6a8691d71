//! Verified core of a small SQLite-backed storage service: the wire protocol's
//! data types, column and schema construction, input validation, the
//! table-rebuild planning used by schema migrations, and the SQL that
//! carries those plans out.

pub mod db;
pub mod explained;
pub mod migration_template;
pub mod protocol;
pub mod schema_migration;
pub mod text;
