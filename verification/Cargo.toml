[package]
name = "embedder"
version = "0.1.0"
edition = "2021"
publish = false

[dependencies]
smithay = { version = "=0.7.0", default-features = false, features = ["wayland_frontend", "xwayland", "renderer_gl"] }
serde_json = "=1.0.154"
tracing = "=0.1.44"
xkeysym = "=0.2.1"
