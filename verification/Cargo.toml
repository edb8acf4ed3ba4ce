[package]
name = "strato"
version = "0.1.0"
edition = "2021"
publish = false

[dependencies]
bytes = "0.4"
fuse = "0.3"
futures = "0.1"
libc = "0.2"
log = "0.4"
parking_lot = "0.12"
time = "0.1"
tokio = "0.1"

[dev-dependencies]
rand = "0.8"
