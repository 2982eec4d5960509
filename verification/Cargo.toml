[package]
name = "rust_leds"
version = "0.1.0"
edition = "2021"
publish = false

[dependencies]
clap = { version = "4", features = ["derive"] }
ws2818-rgb-led-spi-driver = "*"
