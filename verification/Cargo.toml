[package]
name = "token_enforcer"
version = "0.1.0"
edition = "2021"
publish = false

[dependencies]
deadpool = { version = "=0.12.3", default-features = false, features = ["managed"] }
deadpool-redis = { version = "=0.18.0", features = ["rt_tokio_1"] }
redis = { version = "=0.27.6", features = ["script", "aio", "tokio-comp"] }
tokio = { version = "=1.54.1", features = ["sync", "time", "rt", "rt-multi-thread", "macros"] }
async-trait = "=0.1.92"
thiserror = "=1.0.69"
serde = { version = "=1.0.229", features = ["derive"] }
tracing = "=0.1.44"
