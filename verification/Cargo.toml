[package]
name = "rabble"
version = "0.1.0"
edition = "2021"
publish = false

[dependencies]
hdrhistogram = { version = "*", default-features = false, features = ["serialization"] }
serde = { version = "1", features = ["derive"] }
serde_bytes = "*"
amy = "*"
slog = "*"
