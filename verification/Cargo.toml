[package]
name = "inno_creed"
version = "0.1.0"
edition = "2021"
publish = false

[dependencies]
serde_json = "1"
anyhow = "1"
eframe = { version = "0.37", default-features = false, features = ["default_fonts", "glow", "x11"] }
egui = "0.37"
rfd = "0.17"
open = "5"
