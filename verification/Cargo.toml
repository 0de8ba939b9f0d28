[package]
name = "pawphone"
version = "0.1.0"
edition = "2021"
publish = false

[dependencies]
rand = "0.9"
serde = { version = "1", features = ["derive"] }
serde_json = "1"
directories = "6"
ringbuf = "0.4"
cpal = "0.18"
egui = "0.34"
eframe = { version = "0.34", default-features = false, features = ["default_fonts", "glow", "x11"] }
