[package]
name = "ssp_session"
version = "0.1.0"
edition = "2021"
publish = false

[dependencies]
ssp = { version = "=0.5.4", features = ["std"] }
serialport = { version = "=4.10.1", default-features = false }
parking_lot = "=0.12.5"
log = "=0.4.34"
