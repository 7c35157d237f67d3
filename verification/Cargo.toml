[package]
name = "capsule_router"
version = "0.1.0"
edition = "2021"
publish = false

[dependencies]
anyhow = "1"
crossterm = "*"
globwalk = "*"
parking_lot = "*"
reqwest = { version = "*", default-features = false, features = ["blocking"] }
rocket = "0.5"
rocket_dyn_templates = { version = "0.1", features = ["tera"] }
serde = { version = "1", features = ["derive"] }
serde_json = "1"
