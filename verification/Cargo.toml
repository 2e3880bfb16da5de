[package]
name = "memory_game"
version = "0.1.0"
edition = "2021"
publish = false

[dependencies]
heapless = "0.8"
embedded-hal = "1"
rand_core = "0.6"
fugit = "0.3"
fugit-timer = "0.2"
nb = "1"
