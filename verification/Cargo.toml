[package]
name = "hisi-rf-core"
version = "0.1.0"
edition = "2021"
publish = false

[dependencies]
embassy-sync = "=0.7.2"
smoltcp = { version = "=0.12.0", default-features = false, features = ["medium-ethernet", "proto-ipv4", "socket-tcp"] }

[dev-dependencies]
critical-section = { version = "=1.2.0", features = ["std"] }
