pub mod header;
pub mod strings;
