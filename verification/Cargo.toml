[package]
name = "dmm_logger"
version = "0.1.0"
edition = "2021"
publish = false

[dependencies]
anyhow = "1"
chrono = "0.4"
clap = { version = "4", features = ["derive"] }
console = "*"
indicatif = "*"
regex = "1"
signal-hook = "0.3"
unicode-segmentation = "1"
