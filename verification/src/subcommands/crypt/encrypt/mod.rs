pub mod ab;
