[package]
name = "hello_graphics"
version = "0.1.0"
edition = "2021"
publish = false

[dependencies]
heapless = "=0.8.0"
embedded-graphics = "=0.8.2"
tickv = "=2.0.0"
embassy-sync = "=0.8.0"
trouble-host = { version = "=0.8.0", features = ["security"] }
rand_chacha = "=0.3.1"
