[package]
name = "wallpaper_cava"
version = "0.1.0"
edition = "2021"
publish = false

[dependencies]
serde = { version = "=1.0.229", features = ["derive"] }
toml = "=1.1.6"
khronos-egl = { version = "=6.0.0", features = ["static"] }
gl = "=0.14.0"
smithay-client-toolkit = { version = "=0.19.2", default-features = false, features = ["calloop"] }
wayland-client = "=0.31.15"
wayland-egl = "=0.32.11"
wayland-sys = { version = "=0.31.11", features = ["dlopen"] }
