[package]
name = "quickcap"
version = "0.1.0"
edition = "2021"
publish = false

[dependencies]
rayon = "=1.12.0"
log = "=0.4.34"
env_logger = "=0.11.11"
serde = { version = "=1.0.229", features = ["derive"] }
serde_json = "=1.0.154"
png = "=0.18.1"
chrono = "=0.4.45"
dirs = "=6.0.0"
arboard = "=3.7.0"
rfd = { version = "=0.15.4", default-features = false }
tao = "=0.34.8"
wry = "=0.53.5"
screencapturekit = "=1.5.4"
core-graphics = "=0.24.0"
objc2 = "=0.6.5"
objc2-app-kit = "=0.3.2"
objc2-core-foundation = "=0.3.2"
objc2-core-graphics = "=0.3.2"
windows = { version = "=0.61.3", features = ["Win32_Foundation", "Win32_Graphics_Dwm", "Win32_Graphics_Gdi", "Win32_UI_WindowsAndMessaging"] }
