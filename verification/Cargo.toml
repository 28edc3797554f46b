[package]
name = "adafruit_seesaw"
version = "0.1.0"
edition = "2021"
publish = false

[dependencies]
embedded-hal = "1.0"
rgb = { version = "0.8", default-features = false }
