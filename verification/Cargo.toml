[package]
name = "pdf_size_shrinker"
version = "0.1.0"
edition = "2021"
publish = false

[dependencies]
anyhow = "1"
clap = { version = "4", features = ["derive"] }
colored = "2"
human_bytes = "0.4"
thiserror = "1"
walkdir = "2"
