[package]
name = "maggie"
version = "0.1.0"
edition = "2021"
publish = false

[dependencies]
anyhow = "1"
bytemuck = { version = "1", features = ["derive"] }
chrono = { version = "=0.4.45", default-features = false, features = ["clock"] }
clap = { version = "4", features = ["derive", "env"] }
core-graphics = "0.23"
dirs = "=7.0.0"
egui = { version = "=0.36.2", default-features = false, features = ["default_fonts"] }
egui-file-dialog = { version = "=0.15.0", default-features = false }
egui_glow = { version = "=0.36.2", default-features = false }
glow = "0.17"
khronos-egl = { version = "6", features = ["dynamic"] }
png = "=0.18.1"
pollster = "*"
resvg = { version = "=0.49.0", default-features = false }
ron = "=0.12.3"
rustix = { version = "1", features = ["event"] }
serde = { version = "1", features = ["derive"] }
smithay-client-toolkit = { version = "=0.21.1", default-features = false, features = ["xkbcommon"] }
tracing = "0.1"
tracing-subscriber = { version = "0.3", features = ["env-filter"] }
wayland-client = "0.31"
wayland-egl = "0.32"
wayland-protocols = { version = "0.32", features = ["client", "staging", "unstable"] }
wayland-protocols-wlr = { version = "0.3", features = ["client"] }
wgpu = { version = "23", default-features = false, features = ["wgsl"] }
windows = { version = "0.58", features = ["Win32_Foundation", "Win32_Graphics_Direct3D", "Win32_Graphics_Direct3D11", "Win32_Graphics_Dxgi", "Win32_Graphics_Dxgi_Common"] }
winit = { version = "0.30", default-features = false, features = ["rwh_06", "x11", "wayland", "wayland-dlopen"] }
xcursor = "=0.3.11"
xkeysym = "=0.2.1"
