[package]
name = "conn_watchdog"
version = "0.1.0"
edition = "2021"
publish = false

[dependencies]
procfs = "*"
clap = { version = "*", features = ["derive"] }
log = "*"
simple_logger = "*"
