pub mod enums;
