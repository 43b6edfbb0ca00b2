[package]
name = "tiger_lib"
version = "0.1.0"
edition = "2021"
publish = false

[dependencies]
encoding_rs = "0.8"
itertools = "0.13"
image = { version = "0.25", default-features = false, features = ["png"] }
walkdir = "2"
anyhow = "1"
serde = { version = "1", features = ["derive"] }
toml = "0.8"
