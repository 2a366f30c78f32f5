[package]
name = "almarjaa"
version = "3.4.1"
edition = "2021"
publish = false

[dependencies]
colored = "2"
serde = { version = "1", features = ["derive"] }
serde_json = "1"
toml = "0.8"
regex = "1"
chrono = "0.4"
rand = "0.8"
dirs = "5"
libc = "0.2"

[dev-dependencies]
tempfile = "3"
