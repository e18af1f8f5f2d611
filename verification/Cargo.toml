[package]
name = "lyra"
version = "0.1.0"
edition = "2021"
publish = false

[dependencies]
rand = "=0.9.5"
serde = { version = "=1.0.229", features = ["derive"] }
serde_json = "=1.0.154"
tokio = { version = "=1.54.1", default-features = false, features = ["sync", "time", "macros", "rt"] }
image = { version = "=0.25.10", default-features = false, features = ["png", "jpeg"] }
twilight-model = "*"
twilight-util = { version = "*", features = ["builder"] }
