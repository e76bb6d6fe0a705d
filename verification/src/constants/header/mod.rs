pub mod name;
pub mod value;
