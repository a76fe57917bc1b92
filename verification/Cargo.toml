[package]
name = "stelarc"
version = "0.1.0"
edition = "2021"
publish = false

[dependencies]
blake3 = "1"
crc32fast = "1"
md-5 = "0.10"
sha2 = "0.10"
sha3 = "0.10"
eframe = { version = "0.31", default-features = false, features = ["glow", "default_fonts", "x11"] }
egui = "0.31"
