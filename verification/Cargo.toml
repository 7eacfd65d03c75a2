[package]
name = "machine_launcher"
version = "0.1.0"
edition = "2021"
publish = false

[dependencies]
axum = "=0.8.9"
axum-extra = { version = "=0.10.3", features = ["cookie", "typed-header"] }
base64 = "=0.22.1"
chrono = "=0.4.45"
clap = { version = "=4.6.7", features = ["derive"] }
envsubst = "=0.2.1"
jmespath = { version = "=0.4.0", features = ["sync"] }
listenfd = "=1.0.2"
once_cell = "=1.21.4"
openidconnect = "=4.0.1"
ping = "=0.5.2"
regex = "=1.13.1"
reqwest = "=0.12.28"
rust-ipmi = "=0.1.1"
serde = { version = "=1.0.229", features = ["derive"] }
serde_json = "=1.0.154"
thiserror = "=2.0.21"
time = "=0.3.55"
tokio = { version = "=1.54.1", features = ["macros", "rt-multi-thread", "net"] }
toml = "=0.8.23"
tower-http = { version = "=0.6.11", features = ["fs", "trace"] }
tracing = "=0.1.44"
tracing-subscriber = { version = "=0.3.23", features = ["env-filter"] }
url = "=2.5.8"
wakey = "=0.3.0"
