[package]
name = "train_harness"
version = "0.1.0"
edition = "2021"
publish = false

[dependencies]
burn = { version = "=0.16.1", default-features = false, features = ["std", "ndarray", "autodiff", "dataset"] }
serde = { version = "=1.0.229", features = ["derive"] }
serde_json = "=1.0.154"
