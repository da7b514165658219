[package]
name = "btports"
version = "0.1.0"
edition = "2021"
publish = false

[dependencies]
windows = { version = "=0.48.0", features = ["Win32_Devices_Bluetooth", "Win32_Foundation"] }
