pub mod api;
pub mod command;
pub mod crypto;
