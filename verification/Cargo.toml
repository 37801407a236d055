[package]
name = "cantrip"
version = "0.1.0"
edition = "2021"
publish = false

[dependencies]
ab_glyph = "0.2"
anyhow = "1"
clap = { version = "4", features = ["derive"] }
dbus = "0.9"
eframe = { version = "0.29", default-features = false, features = ["glow", "wayland"] }
epaint_default_fonts = "0.29"
image = { version = "0.25", default-features = false, features = ["png"] }
libc = "0.2"
parking_lot = "0.12"
serde = { version = "1", features = ["derive"] }
serde_json = "1"
sha2 = "0.10"
smithay-client-toolkit = { version = "0.19", default-features = false, features = ["calloop"] }
toml = "0.8"
tracing = "0.1"
wayland-client = "0.31"
