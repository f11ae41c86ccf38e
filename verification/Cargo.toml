[package]
name = "mist_scheduler"
version = "0.1.0"
edition = "2021"
publish = false

[dependencies]
eframe = { version = "0.23", default-features = false, features = ["default_fonts", "glow", "persistence"] }
egui = "0.23"
serde = { version = "1", features = ["derive"] }
