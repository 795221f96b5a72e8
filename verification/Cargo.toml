[package]
name = "sophross"
version = "0.1.0"
edition = "2021"
publish = false

[dependencies]
chrono = "0.4"
egui = "=0.27.2"
egui_dock = "=0.12.0"
egui_extras = { version = "=0.27.2", features = ["file", "image"] }
image = { version = "0.24", default-features = false, features = ["png"] }
rusqlite = { version = "=0.31.0", features = ["bundled", "chrono"] }
