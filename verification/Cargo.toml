[package]
name = "majestic_boundary"
version = "0.1.0"
edition = "2021"
publish = false

[dependencies]
vek = "0.17"
specs = "0.20"
serde = { version = "1", features = ["derive"] }
tracing = "0.1"
delaunator = "1.0"
tiny-skia = "0.11"
