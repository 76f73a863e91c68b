[package]
name = "debounced_pin"
version = "0.2.0"
edition = "2021"
publish = false

[dependencies]
embedded-hal = { version = "0.2", features = ["unproven"] }
