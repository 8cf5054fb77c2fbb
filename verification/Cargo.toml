[package]
name = "pac_man_ball"
version = "0.1.0"
edition = "2021"
publish = false

[dependencies]
embassy-sync = "*"
critical-section = { version = "1", features = ["std"] }
edge-http = "*"
edge-ws = "*"
edge-nal = "*"
edge-nal-std = "*"
embassy-time = { version = "*", features = ["std"] }
embassy-futures = "*"
embedded-io-async = "*"
futures-lite = "*"
log = "*"
env_logger = "*"
rand = "*"
