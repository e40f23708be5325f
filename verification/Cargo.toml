[package]
name = "modbus_master"
version = "0.1.0"
edition = "2021"
publish = false

[dependencies]
rodbus = { version = "*", features = ["serial"] }
tokio = { version = "*", features = ["rt-multi-thread", "time", "macros"] }
