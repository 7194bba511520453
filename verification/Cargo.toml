[package]
name = "cyme"
version = "0.1.0"
edition = "2021"
publish = false

[dependencies]
fastrand = "2"
heck = "=0.4.1"
itertools = "=0.10.5"
log = "=0.4.34"
serde = { version = "1", features = ["derive"] }
serde_json = "1"
unicode-width = "0.1"
