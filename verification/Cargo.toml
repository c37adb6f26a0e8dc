[package]
name = "rawudp"
version = "0.1.0"
edition = "2021"
publish = false

[dependencies]
chrono = "*"
clap = { version = "*", features = ["derive"] }
colog = "*"
colored = "*"
env_logger = "*"
libc = "*"
log = "*"
rand = "*"
