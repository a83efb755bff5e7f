[package]
name = "block_sink"
version = "0.1.0"
edition = "2021"
publish = false

[dependencies]
regex = "=1.13.1"
semver = "=1.0.28"
prost-types = "=0.14.4"
prost = "=0.14.4"
anyhow = "=1.0.104"
dotenvy = "=0.15.7"
redis = { version = "=1.7.1", features = ["cluster"] }
serde = { version = "=1.0.229", features = ["derive"] }
serde_json = "=1.0.151"
tokio = { version = "=1.53.2", features = ["rt-multi-thread", "macros"] }
warp = { version = "=0.4.3", features = ["server"] }
reqwest = { version = "=0.13.5", default-features = false, features = ["blocking"] }
