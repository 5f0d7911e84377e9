[package]
name = "tour_app"
version = "0.1.0"
edition = "2021"
publish = false

[dependencies]
egui = "=0.31.1"
serde = { version = "1", features = ["derive"] }
ron = "*"
