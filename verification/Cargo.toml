[package]
name = "hotshot_query_service"
version = "0.1.0"
edition = "2021"
publish = false

[dependencies]
async-std = "=1.13.2"
async-trait = "=0.1.92"
async-compatibility-layer = "=1.2.1"
futures = "=0.3.34"
tracing = "=0.1.44"
serde = { version = "=1.0.229", features = ["derive"] }
serde_json = "=1.0.154"
bincode = "=1.3.3"
time = "=0.3.55"
tokio-postgres = { version = "=0.7.18", features = ["with-serde_json-1", "with-time-0_3"] }
clap = { version = "=4.6.7", features = ["derive", "env"] }
toml = "=0.8.23"
snafu = "=0.7.5"
