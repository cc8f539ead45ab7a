[package]
name = "rrr"
version = "0.1.0"
edition = "2021"
publish = false

[dependencies]
serde = { version = "1", features = ["derive"] }
serde_json = "1"
ws2812-esp32-rmt-driver = "0.6"
heapless = "0.7"
anyhow = "1"
thiserror = "1"
log = "0.4"
include_dir = "0.7"
embedded-svc = "0.25"
esp-idf-svc = "0.46"
esp-idf-hal = "0.41"
esp-idf-sys = "0.33"
shared-bus = { version = "0.3", features = ["std"] }
max170xx = "*"
bmp280-ehal = "*"
