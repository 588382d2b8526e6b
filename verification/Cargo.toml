[package]
name = "skirm_core"
version = "0.1.0"
edition = "2021"
publish = false

[dependencies]
pathfinding = "*"
line_drawing = "*"
ascii = "*"
ron = "*"
serde = { version = "*", features = ["derive"] }
