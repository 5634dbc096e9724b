[package]
name = "logged_stream"
version = "0.1.0"
edition = "2021"
publish = false

[dependencies]
chrono = { version = "0.4", default-features = false, features = ["std", "now"] }
itertools = "*"
log = "0.4"
tokio = { version = "1", default-features = false }
