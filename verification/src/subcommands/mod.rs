pub mod crypt;
pub mod decrypt;
