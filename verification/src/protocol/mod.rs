pub mod error;
pub mod messages;
pub mod new_table;
pub mod payload;
pub mod row_col;
pub mod serialization;
