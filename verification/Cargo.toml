[package]
name = "owned_window_handle"
version = "0.1.0"
edition = "2021"
publish = false

[dependencies]
raw-window-handle = "0.6"
wayland-backend = { version = "0.3", features = ["client_system", "dlopen"] }
wayland-client = { version = "0.31", features = ["dlopen"] }
wayland-sys = { version = "0.31", features = ["client", "dlopen", "libwayland_client_1_23"] }
