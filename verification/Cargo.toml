[package]
name = "airnode"
version = "0.1.0"
edition = "2021"
publish = false

[dependencies]
macaddr = "*"
sds011 = "*"
embedded-hal = "*"
smart-leds = "*"
anyhow = "*"
log = "*"
esp-idf-svc = "*"
ws2812-esp32-rmt-driver = "*"
