[package]
name = "metrics"
version = "0.1.0"
edition = "2021"
publish = false

[dependencies]
chrono = { version = "0.4", default-features = false, features = ["clock"] }
jemalloc-ctl = "0.3"
json = "0.12"
lazy_static = "1"
log = "0.4"
prometheus = { version = "0.13", default-features = false }
