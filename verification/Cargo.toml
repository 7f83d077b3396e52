[package]
name = "wifi_direct_rs"
version = "0.1.0"
edition = "2021"
publish = false

[dependencies]
thiserror = "*"
tokio = { version = "1", features = ["rt-multi-thread", "macros", "sync"] }
zbus = { version = "*", default-features = false, features = ["tokio"] }
