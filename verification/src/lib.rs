pub mod api;
pub mod constants;
pub mod crypto;
pub mod error;
pub mod models;
pub mod subcommands;
