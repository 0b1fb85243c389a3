[package]
name = "roastcraft"
version = "0.1.0"
edition = "2021"
publish = false

[dependencies]
rmodbus = "*"
serialport = { version = "4", default-features = false }
serde = { version = "1", features = ["derive"] }
serde_json = "1"
toml = "0.8"
tokio = { version = "1", features = ["rt-multi-thread", "macros", "time", "sync"] }
reqwest = { version = "0.11", default-features = false }
async-trait = "0.1"
log = "0.4"
