[package]
name = "vhost-user-backend"
version = "0.1.0"
edition = "2021"
publish = false

[dependencies]
io-uring = "*"
libc = "0.2"
vmm-sys-util = "*"
