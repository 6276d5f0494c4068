[package]
name = "ble_scanner"
version = "0.1.0"
edition = "2021"
publish = false

[dependencies]
anyhow = "1"
btleplug = "*"
clap = { version = "4", features = ["derive"] }
tokio = { version = "1", features = ["macros", "rt-multi-thread", "time"] }
