[package]
name = "restore_drill_attestor"
version = "0.1.0"
edition = "2021"
publish = false

[dependencies]
chrono = "0.4"
sha2 = "0.10"
serde = { version = "1", features = ["derive"] }
serde_json = "1"
toml = "0.8"
clap = { version = "4", features = ["derive"] }
libc = "0.2"
