[package]
name = "fluvio_duck"
version = "0.1.0"
edition = "2021"
publish = false

[dependencies]
anyhow = "=1.0.104"
chrono = "=0.4.45"
clap = { version = "=4.6.7", features = ["derive"] }
fluvio = "=0.50.1"
fluvio-future = { version = "=0.8.3", features = ["task", "subscriber"] }
fluvio-smartengine = { version = "=0.50.1", default-features = false, features = ["transformation"] }
fluvio-types = "=0.50.1"
futures-lite = "=2.6.1"
jql = "=5.2.0"
libduckdb-sys = { version = "=1.20000.0", default-features = false, features = ["capi-v1"] }
serde_json = "=1.0.154"
tracing = "=0.1.44"
