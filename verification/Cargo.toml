[package]
name = "bmc_mock"
version = "0.1.0"
edition = "2021"
publish = false

[dependencies]
axum = "=0.8.9"
axum-server = { version = "=0.7.3", default-features = false, features = ["tls-rustls-no-provider"] }
clap = { version = "=4.6.7", features = ["derive"] }
hyper = "=1.12.0"
mac_address = "=1.2.1"
prettytable-rs = "=0.10.0"
rustls = { version = "=0.23.46", default-features = false, features = ["ring", "std"] }
rustls-pemfile = "=2.2.0"
serde_json = "=1.0.154"
thiserror = "=2.0.21"
tokio = { version = "=1.54.1", features = ["rt-multi-thread", "macros", "sync", "net", "time"] }
tonic = "=0.14.6"
tower = "=0.5.3"
tracing = "=0.1.44"
