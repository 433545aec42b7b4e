[package]
name = "songmap"
version = "0.1.0"
edition = "2021"
publish = false

[dependencies]
egui = "0.29"
eframe = { version = "0.29", default-features = false, features = ["default_fonts", "glow", "x11"] }
rfd = "0.15"
serde = { version = "1", features = ["derive"] }
serde_json = "1"
