[package]
name = "lamco-wgpu"
version = "0.1.0"
edition = "2021"
publish = false

[dependencies]
ash = "0.38"
bytemuck = { version = "1", features = ["derive"] }
drm-fourcc = "2.2"
libc = "0.2"
pollster = "0.4"
smithay = { version = "*", default-features = false, features = ["backend_drm", "backend_vulkan", "wayland_frontend"] }
thiserror = "2"
tracing = "0.1"
wayland-server = "0.31"
wgpu = "28"
wgpu-hal = { version = "28", features = ["vulkan"] }
wgpu-types = "28"
