[package]
name = "archive"
version = "0.1.0"
edition = "2021"
publish = false

[dependencies]
ar = "*"
bzip2 = "*"
flate2 = "*"
liblzma = "*"
lz4 = "*"
sevenz-rust = "*"
tar = "*"
zip = "*"
zstd = "*"
