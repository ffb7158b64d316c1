[package]
name = "ble_session"
version = "0.1.0"
edition = "2021"
publish = false

[dependencies]
uuid = "=0.8.2"
btleplug = "0.8"
tokio = { version = "1", features = ["macros", "rt-multi-thread"] }
futures = "0.3"
async-std = "1"
