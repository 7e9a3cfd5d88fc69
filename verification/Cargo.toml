[package]
name = "task_batch"
version = "0.1.0"
edition = "2021"
publish = false

[dependencies]
rand = "0.8"
tokio = { version = "1", features = ["rt-multi-thread", "time", "macros"] }
futures = "0.3"
eframe = { version = "*", default-features = false, features = ["glow", "x11"] }
