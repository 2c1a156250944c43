[package]
name = "driftwm"
version = "0.1.0"
edition = "2021"
publish = false

[dependencies]
smithay = { version = "0.7", default-features = false, features = ["desktop", "wayland_frontend", "xwayland", "backend_winit", "backend_session", "renderer_gl"] }
tracing = "0.1"
