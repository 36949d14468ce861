[package]
name = "minimap2_htslib"
version = "0.1.0"
edition = "2021"
publish = false

[dependencies]
minimap2 = { version = "*", default-features = false }
rust-htslib = { version = "*", default-features = false }
