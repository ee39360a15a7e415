[package]
name = "emulator"
version = "0.1.0"
edition = "2021"
publish = false

[dependencies]
rand = "*"
w65c02s = "*"
spin_sleep = "*"
clap = "*"
chrono = "*"
timer = "*"
