//! The template for a migration chain: the tables of each schema version.

pub mod version0;
pub mod version1;
