[package]
name = "reservation_paymaster"
version = "0.1.0"
edition = "2021"
publish = false

[dependencies]
alloy = { version = "=0.3.6", default-features = false, features = ["std", "contract", "network", "provider-http", "signer-local", "hyper"] }
rand = "=0.8.8"
tokio = { version = "=1.54.1", features = ["macros", "rt-multi-thread", "sync", "time", "net"] }
axum = "=0.7.9"
clap = { version = "=4.6.7", default-features = false, features = ["std", "derive", "env", "help", "usage", "error-context"] }
dotenv = "=0.15.0"
serde = { version = "=1.0.229", features = ["derive"] }
tower-http = { version = "=0.5.2", features = ["cors"] }
tracing = "=0.1.44"
tracing-subscriber = { version = "=0.3.23", features = ["env-filter"] }
ts-rs = "=9.0.1"
