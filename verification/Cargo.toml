[package]
name = "oan_engine"
version = "0.1.0"
edition = "2021"
publish = false

[dependencies]
anyhow = "*"
hex = "*"
once_cell = "*"
rayon = "*"
sha2 = "*"
uuid = { version = "*", features = ["v4"] }
