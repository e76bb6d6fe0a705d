pub mod decrypt;
pub mod encrypt;
