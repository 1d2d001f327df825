[package]
name = "autotest"
version = "0.1.0"
edition = "2021"
publish = false

[dependencies]
nanoid = "=0.4.0"
regex = "=1.13.1"
clap = { version = "=4.6.7", features = ["derive"] }
tracing = "=0.1.44"
tracing-subscriber = "=0.3.23"
parking_lot = "=0.12.5"
ctrlc = "=3.5.2"
serde = { version = "=1.0.229", features = ["derive"] }
toml = "=0.8.23"
image = { version = "=0.24.9", default-features = false, features = ["png"] }
rquickjs = "=0.4.3"
pyo3 = "=0.20.3"
serde_json = "1"
chrono = "0.4"
