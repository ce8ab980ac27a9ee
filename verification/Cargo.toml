[package]
name = "virtual_gamepad"
version = "0.1.0"
edition = "2021"
publish = false

[dependencies]
tiny-skia = "0.11"
serde = { version = "1", features = ["derive"] }
log = "0.4"
env_logger = "0.11"
winit = "0.29"
softbuffer = "0.4"
raw-window-handle = "0.6"
windows = { version = "0.58", features = ["Win32_Foundation", "Win32_Graphics_Dwm", "Win32_Graphics_Gdi", "Win32_UI_WindowsAndMessaging"] }
