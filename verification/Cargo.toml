[package]
name = "keycrate_demo"
version = "0.1.0"
edition = "2021"
publish = false

[dependencies]
sha2 = "0.10"
chrono = "0.4"
serde_json = "1"
keycrate = "*"
tokio = { version = "1", features = ["macros", "rt-multi-thread"] }
