[package]
name = "fat_folder_discovery"
version = "0.1.0"
edition = "2021"
publish = false

[dependencies]
walkdir = "2"
log = "0.4"
ctrlc = "3"
winapi = { version = "0.3", features = ["fileapi"] }
eframe = { version = "*", default-features = false, features = ["glow", "x11", "default_fonts"] }

[dev-dependencies]
tempfile = "3"
