[package]
name = "druzhba_logic"
version = "0.1.0"
edition = "2021"
publish = false

[dependencies]
embedded-graphics = "0.8"
heapless = "0.9"
embassy-sync = "*"
embassy-futures = "*"
embassy-time = "*"
