[package]
name = "screenshot"
version = "0.1.0"
edition = "2021"
publish = false

[dependencies]
image = { version = "=0.24.9", default-features = false, features = ["png", "jpeg"] }
chrono = { version = "=0.4.45", default-features = false, features = ["clock", "std"] }
uuid = { version = "=1.27.0", features = ["v4"] }
screenshots = "=0.7.3"
clap = { version = "=4.5.61", features = ["derive"] }
dirs = "=5.0.1"
toml = "=0.8.23"
serde = { version = "=1.0.229", features = ["derive"] }

[dev-dependencies]
tempfile = "=3.27.0"
