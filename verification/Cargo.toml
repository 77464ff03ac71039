[package]
name = "cargo_3ds"
version = "0.1.0"
edition = "2021"
publish = false

[dependencies]
cargo_metadata = "0.14"
clap = { version = "4", features = ["derive"] }
