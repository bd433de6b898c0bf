[package]
name = "fable_async"
version = "0.1.0"
edition = "2021"
publish = false

[dependencies]
futures = { version = "0.3", features = ["thread-pool"] }
futures-timer = "3"
