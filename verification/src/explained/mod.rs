//! A small model of how the service wrappers are put together: operations
//! on a "connection" (here just a name), and three wrappers around them — one
//! that owns the connection, one that guards it with a mutex, and one that
//! takes and gives encoded bytes.

pub mod android_mascot;
pub mod db_operations;
pub mod payload;
pub mod plain_mascot;

pub mod serializer_mascot;
