[package]
name = "pigbot"
version = "0.1.0"
edition = "2021"
publish = false

[dependencies]
rand = "*"
unicode-segmentation = "*"
serde = { version = "*", features = ["derive"] }
serde_yaml = "*"
