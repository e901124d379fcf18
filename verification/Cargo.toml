[package]
name = "ritual"
version = "0.1.0"
edition = "2021"
publish = false

[dependencies]
itertools = "*"
log = "0.4"
serde = { version = "1", features = ["derive"] }
serde_derive = "1"
