[package]
name = "wlt-helper"
version = "0.1.0"
edition = "2021"
publish = false

[dependencies]
url = "=2.5.8"
serde = { version = "=1.0.229", features = ["derive"] }
toml = "=0.8.23"
zbus = "=5.19.0"
reqwest = { version = "=0.12.28", default-features = false, features = ["rustls-tls"] }
tokio = { version = "=1.54.1", features = ["full"] }
oo7 = "=0.6.0"
clap = { version = "=4.6.7", features = ["derive"] }
rpassword = "=7.5.4"
tracing = "=0.1.44"
tracing-subscriber = { version = "=0.3.23", features = ["env-filter"] }
tracing-appender = "=0.2.5"
futures-util = "=0.3.34"
