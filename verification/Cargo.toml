[package]
name = "pane_system"
version = "0.1.0"
edition = "2021"
publish = false

[dependencies]
iced = { version = "=0.10.0", default-features = false, features = ["lazy"] }
iced_core = "=0.10.0"
