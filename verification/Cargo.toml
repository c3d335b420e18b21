[package]
name = "kc11b04"
version = "0.1.0"
edition = "2021"
publish = false

[dependencies]
embedded-hal = { version = "0.2", features = ["unproven"] }
nb = "1"

[dev-dependencies]
embedded-hal-mock = "0.9"
