[package]
name = "screencap"
version = "0.1.0"
edition = "2021"
publish = false

[dependencies]
image = { version = "=0.25.10", default-features = false, features = ["png"] }
xcap = { version = "=0.0.14", features = ["vendored"] }
pyo3 = "=0.20.3"
