[package]
name = "whisperme"
version = "0.1.0"
edition = "2021"
publish = false

[dependencies]
rust-ini = "0.21"
crossbeam-channel = "0.5"
x11rb = { version = "0.13", features = ["randr"] }
spectrum-analyzer = "1"
circular-buffer = "*"
nnnoiseless = { version = "0.5", default-features = false }
rubato = "*"
audioadapter-buffers = "*"
xkbcommon = { version = "0.8", default-features = false }
arboard = { version = "3", default-features = false }
libxdo = "0.6"
winit = "0.30"
softbuffer = "0.4"
tiny-skia = "0.11"
ureq = "3"
eframe = { version = "*", default-features = false, features = ["default_fonts", "glow", "x11", "wayland"] }
pipewire = "0.9"
