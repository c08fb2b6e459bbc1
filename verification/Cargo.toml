[package]
name = "actix_ws_redis_protobuf"
version = "0.1.0"
edition = "2021"
publish = false

[dependencies]
bytes = "1"
actix = "0.13"
actix-web = "4"
actix-web-actors = "4"
tokio = { version = "1", features = ["rt", "rt-multi-thread", "macros", "sync", "time"] }
redis = { version = "*", features = ["tokio-comp"] }
serde = { version = "1", features = ["derive"] }
serde_json = "1"
futures-util = "0.3"
env_logger = "*"
log = "0.4"
