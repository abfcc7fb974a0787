[package]
name = "overfloat"
version = "0.1.0"
edition = "2021"
publish = false

[dependencies]
futures = "0.3"
notify = "6"
rdev = "0.5"
serde = { version = "1", features = ["derive"] }
