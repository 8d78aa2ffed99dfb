[package]
name = "sx1255"
version = "0.1.0"
edition = "2021"
publish = false

[dependencies]
chrono = "*"
clap = { version = "*", features = ["derive"] }
spidev = "*"
gpio-cdev = "*"
