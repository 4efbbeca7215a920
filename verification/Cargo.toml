[package]
name = "watch_core"
version = "0.1.0"
edition = "2021"
publish = false

[dependencies]
heapless = "0.7"
cortex-m = "0.7"
cortex-m-rt = "0.7"
nrf52832-pac = { version = "0.12", features = ["rt"] }
