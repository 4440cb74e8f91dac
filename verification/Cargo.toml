[package]
name = "iswitch"
version = "0.1.0"
edition = "2021"
publish = false

[dependencies]
block = "0.1"
chrono = "0.4"
cocoa = { version = "0.26", default-features = false }
core-foundation = "0.10"
fern = "0.7"
log = "0.4"
notify = "8"
objc = "0.2"
parking_lot = "0.12"
serde = { version = "1", features = ["derive"] }
tokio = { version = "1", features = ["fs", "macros", "rt", "sync"] }
toml = "0.8"
