pub mod black_magic;
pub mod migration;
pub mod rebuild;
pub mod safety_first;
pub mod sql_log;
pub mod schema_ops;
pub mod sql_text;
pub mod statements;
pub mod table_ops;
