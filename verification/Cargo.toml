[package]
name = "gba"
version = "0.1.0"
edition = "2021"
publish = false

[dependencies]
bitflags = { version = "2", features = ["serde"] }
log = "0.4"
serde = { version = "1", features = ["derive"] }
thiserror = "1"
