[package]
name = "udptcp"
version = "0.1.0"
edition = "2021"
publish = false

[dependencies]
chrono = "0.4"
eframe = { version = "0.31", default-features = false, features = ["glow", "default_fonts"] }
get_if_addrs = "0.5"
log = "0.4"
netdev = "*"
