[package]
name = "modbus_engine"
version = "0.1.0"
edition = "2021"
publish = false

[dependencies]
anyhow = "1"
async-trait = "0.1"
byteorder = "1"
tokio = { version = "1", features = ["io-util", "macros", "net", "rt", "time"] }
