[package]
name = "ruuid"
version = "0.1.0"
edition = "2021"
publish = false

[dependencies]
libc = "*"
uuid = { version = "*", features = ["v1", "v4"] }
