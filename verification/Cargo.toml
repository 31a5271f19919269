[package]
name = "dct_filter"
version = "0.1.0"
edition = "2021"
publish = false

[dependencies]
anyhow = "=1.0.104"
clap = "=4.6.7"
fft2d = { version = "=0.1.1", features = ["rustdct"] }
image = "=0.25.10"
