[package]
name = "origin"
version = "0.1.0"
edition = "2021"
publish = false

[dependencies]
errno = "0.3"
libc = "0.2"
linux-raw-sys = "0.4"
rustix = { version = "0.38", features = ["runtime", "thread"] }
