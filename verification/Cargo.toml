[package]
name = "vibar"
version = "0.1.0"
edition = "2021"
publish = false

[dependencies]
serde = { version = "1", features = ["derive"] }
serde_json = "1"
json5 = "0.4"
libc = "0.2"
chrono = "0.4"
swayipc = "*"
zbus = "*"
udev = "*"
libpulse-binding = "*"
gtk4 = "*"
gtk4-layer-shell = "*"
