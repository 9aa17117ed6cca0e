[package]
name = "rust-graphics-opengl"
version = "0.1.0"
edition = "2021"
publish = false

[dependencies]
rust_graphics_window = "=0.1.2"
rust_graphics_library_loader = "=0.1.0"
rust_graphics_log = "=0.1.0"
winapi = { version = "=0.3.9", features = ["windef", "minwindef", "wingdi", "winuser"] }
