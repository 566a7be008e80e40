[package]
name = "pi_status"
version = "0.1.0"
edition = "2021"
publish = false

[dependencies]
sysinfo = "*"
rocket = { version = "0.5", features = ["json"] }
