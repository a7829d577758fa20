[package]
name = "ngx"
version = "0.1.0"
edition = "2021"
publish = false

[dependencies]
nginx-sys = "=0.5.0"
hyper = "=1.12.0"
hyper-util = { version = "=0.1.21", features = ["client-legacy", "http1"] }
libc = "=0.2.191"
