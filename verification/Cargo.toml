[package]
name = "lacmta_alerts_protobuf"
version = "0.1.0"
edition = "2021"
publish = false

[dependencies]
gtfs-rt = "=0.2.1"
prost = "=0.8.0"
redis = "=1.7.1"
serde = { version = "=1.0.229", features = ["derive"] }
serde_json = "*"
tokio = { version = "=1.53.2", features = ["macros", "rt-multi-thread", "time"] }
reqwest = { version = "=0.13.5", default-features = false, features = ["json"] }
