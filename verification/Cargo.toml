[package]
name = "counter_server"
version = "0.1.0"
edition = "2021"
publish = false

[dependencies]
rmcp = { version = "*", features = ["server", "transport-io", "macros"] }
tokio = { version = "*", features = ["macros", "rt", "rt-multi-thread", "sync", "io-std", "io-util"] }
