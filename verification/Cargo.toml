[package]
name = "glbb"
version = "0.1.0"
edition = "2021"
publish = false

[dependencies]
eframe = { version = "0.18", features = ["persistence"] }
egui = "0.18"
ron = "0.7"
serde = { version = "1", features = ["derive"] }
