[package]
name = "http_reactor"
version = "0.1.0"
edition = "2021"
publish = false

[dependencies]
bytes = "=0.2.11"
mio = "=0.4.4"
slab = "=0.1.3"
threadpool = "=1.8.1"
