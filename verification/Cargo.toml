[package]
name = "decompression"
version = "0.1.0"
edition = "2021"
publish = false

[dependencies]
flate2 = "=1.1.10"
tempfile = "=3.27.0"
tracing = "=0.1.44"
zip = { version = "2", default-features = false, features = ["deflate"] }
zstd = "=0.13.3"
