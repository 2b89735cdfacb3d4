[package]
name = "cistern"
version = "0.1.0"
edition = "2021"
publish = false

[dependencies]
sled = "0.34"
serde = { version = "1", features = ["derive"] }
serde_json = "1"
rand = "0.9"
tokio = { version = "1", features = ["rt-multi-thread", "macros", "fs"] }
macron = "*"
atoman = "*"
arrow-array = "*"
arrow-schema = "*"
