[package]
name = "deadlock_mod_manager"
version = "0.1.0"
edition = "2021"
publish = false

[dependencies]
chrono = "=0.4.45"
serde = { version = "=1.0.229", features = ["derive"] }
serde_json = "=1.0.154"
thiserror = "=2.0.21"
log = "=0.4.35"
tokio = { version = "=1.54.1", features = ["rt-multi-thread", "macros", "sync", "fs", "io-util", "time"] }
tokio-util = "=0.7.20"
futures = "=0.3.34"
reqwest = { version = "=0.12.28", default-features = false, features = ["stream", "rustls-tls"] }
keyvalues-serde = "=0.2.4"
zip = { version = "=9.2.2", default-features = false }
unrar = "=0.5.8"
