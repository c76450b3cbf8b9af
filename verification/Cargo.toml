[package]
name = "bouncer"
version = "0.1.0"
edition = "2021"
publish = false

[dependencies]
rusqlite = { version = "=0.41.1", features = ["bundled", "functions"] }
thiserror = "=2.0.21"
pyo3 = "=0.30.1"

[dev-dependencies]
tempfile = "=3.27.0"
