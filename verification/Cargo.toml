[package]
name = "syslog_net"
version = "0.1.0"
edition = "2021"
publish = false

[dependencies]
anyhow = "1"
chrono = "0.4"
log = "0.4"
log4rs = "1"
serde = { version = "1", features = ["derive"] }
