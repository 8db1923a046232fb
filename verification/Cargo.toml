[package]
name = "bastion"
version = "0.1.0"
edition = "2021"
publish = false

[dependencies]
futures = "0.3"
qutex = "*"
uuid = { version = "1", features = ["v4"] }
