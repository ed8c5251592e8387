[package]
name = "flock_camera_sensor"
version = "0.1.0"
edition = "2021"
publish = false

[dependencies]
anyhow = "*"
embedded-svc = "*"
esp-idf-hal = "*"
esp-idf-svc = "*"
esp-idf-sys = "*"
log = "*"
serde = { version = "*", features = ["derive"] }
serde_json = "*"
