[package]
name = "gpubsub_consumer"
version = "0.1.0"
edition = "2021"
publish = false

[dependencies]
async-std = "1"
libflate = "1"
lz4 = "1"
serde_json = "1"
serde_yaml = "0.8"
snap = "1"
xz2 = "0.1"
zstd = "0.11"
