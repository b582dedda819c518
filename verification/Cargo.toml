[package]
name = "adb_agent"
version = "0.1.0"
edition = "2021"
publish = false

[dependencies]
clap = { version = "4", features = ["derive"] }
image = { version = "0.25", default-features = false, features = ["jpeg", "png"] }
roxmltree = "*"
serde = { version = "1", features = ["derive"] }
serde_json = "1"
