pub mod current;
pub mod version0;
