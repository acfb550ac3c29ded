[package]
name = "quiver"
version = "0.1.0"
edition = "2021"
publish = false

[dependencies]
openssl = "0.10"
rand = "0.8"
rand_chacha = "0.3"
serde = { version = "1", features = ["derive"] }
serde_json = "1"
bincode = "1"
chrono = { version = "0.4", features = ["serde"] }
failure = "0.1"
log = "0.4"
env_logger = "0.10"
interprocess = "1"
tokio = { version = "1", features = ["net", "rt", "macros", "io-util"] }
futures = "0.3"
diesel = { version = "2.0", features = ["sqlite", "r2d2"] }
confy = "0.5"
