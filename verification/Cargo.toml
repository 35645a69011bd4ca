[package]
name = "file_syncer"
version = "0.1.0"
edition = "2021"
publish = false

[dependencies]
anyhow = "1"
clap = { version = "4", features = ["derive"] }
flate2 = "1"
tempfile = "3"
walkdir = "2"
