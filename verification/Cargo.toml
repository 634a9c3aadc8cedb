[package]
name = "oro_link"
version = "0.1.0"
edition = "2021"
publish = false

[dependencies]
cobs = { version = "*", default-features = false }
sha2 = { version = "*", default-features = false }
heapless = "*"
minicbor = { version = "*", features = ["derive", "alloc"] }
micromath = "*"
