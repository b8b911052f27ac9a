[package]
name = "eve_l_preview"
version = "0.1.0"
edition = "2021"
publish = false

[dependencies]
anyhow = "*"
dirs = "*"
evdev = "*"
fontdue = "*"
serde = { version = "*", features = ["derive"] }
serde_json = "*"
toml = "*"
tracing = "*"
tracing-subscriber = "*"
x11rb = { version = "*", features = ["damage", "render"] }
