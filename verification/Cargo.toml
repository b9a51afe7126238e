[package]
name = "cargo_subunit"
version = "0.1.0"
edition = "2021"
publish = false

[dependencies]
serde_json = "*"
chrono = "*"
crc32fast = "*"
clap = { version = "*", features = ["derive"] }

[dev-dependencies]
subunit = "*"
