[package]
name = "hdr-merge-master"
version = "1.0.0"
edition = "2021"
publish = false

[dependencies]
kamadak-exif = "0.6"
serde = { version = "1", features = ["derive"] }
serde_json = "1"
chrono = "0.4"
clap = { version = "4", features = ["derive"] }
dirs = "6"
open = "5"
rayon = "1"
image = { version = "0.25", default-features = false, features = ["png", "jpeg", "tiff"] }
exr = "1"
