[package]
name = "sekai"
version = "0.1.0"
edition = "2021"
publish = false

[dependencies]
aes = "0.8"
clap = { version = "4", features = ["derive"] }
reqwest = { version = "0.12", default-features = false }
rmp-serde = "1"
serde = { version = "1", features = ["derive"] }
