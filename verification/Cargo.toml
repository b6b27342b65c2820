[package]
name = "grin"
version = "0.1.0"
edition = "2021"
publish = false

[dependencies]
tiny-keccak = { version = "*", features = ["sha3"] }
serde = { version = "*", features = ["derive"] }
serde_json = "*"
clap = "*"
daemonize = "*"
tiny_http = "*"
