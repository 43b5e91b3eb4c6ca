[package]
name = "remote_mount"
version = "0.1.0"
edition = "2021"
publish = false

[dependencies]
which = "*"
tokio = { version = "*", features = ["process", "rt"] }
log = "*"
dotenv = "*"
