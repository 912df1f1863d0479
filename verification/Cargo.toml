[package]
name = "test_api"
version = "0.1.0"
edition = "2021"
publish = false

[dependencies]
jwt-simple = { version = "*", default-features = false, features = ["pure-rust"] }
rand = "0.8"
uuid = "1"
axum = "*"
clap = { version = "4", features = ["derive"] }
log = "0.4"
serde = "1"
serde_derive = "1"
simple_logger = "*"
tokio = { version = "1", features = ["macros", "rt-multi-thread", "net", "sync", "time"] }
url = "*"
