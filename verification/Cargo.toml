[package]
name = "bifrost"
version = "0.1.0"
edition = "2021"
publish = false

[dependencies]
axum = "0.7"
byteorder = "1"
chrono = { version = "0.4", features = ["serde"] }
futures = "0.3"
hex = "0.4"
iana-time-zone = "0.1"
log = "0.4"
mac_address = { version = "1", features = ["serde"] }
packed_struct = "0.10"
serde = { version = "1", features = ["derive"] }
serde_json = "1"
serde_yaml = "0.9"
tokio = { version = "1", features = ["macros", "rt", "sync", "time"] }
uuid = { version = "1", features = ["v4", "v5", "serde"] }
