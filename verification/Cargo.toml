[package]
name = "hydra"
version = "0.1.0"
edition = "2021"
publish = false

[dependencies]
rusqlite = { version = "=0.40.2", features = ["bundled"] }
reqwest = { version = "=0.13.5", default-features = false, features = ["blocking", "rustls"] }
hyper = "=1.12.0"
