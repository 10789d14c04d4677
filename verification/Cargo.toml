[package]
name = "hcp"
version = "0.1.0"
edition = "2021"
publish = false

[dependencies]
ureq = "*"
clap = { version = "*", features = ["derive", "env"] }
libc = "*"
