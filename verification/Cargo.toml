[package]
name = "imgbatch"
version = "0.1.0"
edition = "2021"
publish = false

[dependencies]
image = "*"
sysinfo = "*"
rayon = "*"
serde = { version = "*", features = ["derive"] }
flutter_rust_bridge = "*"
