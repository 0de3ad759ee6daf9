[package]
name = "nyx"
version = "0.1.0"
edition = "2021"
publish = false

[dependencies]
hound = "3"
rustfft = "6"
num-complex = "0.4"
clap = { version = "4", features = ["derive"] }
image = { version = "0.25", default-features = false, features = ["png"] }
