[package]
name = "dxva_probe"
version = "0.1.0"
edition = "2021"
publish = false

[dependencies]
anyhow = "=1.0.104"
serde = { version = "=1.0.229", features = ["derive"] }
windows = { version = "=0.48.0", features = ["Win32_Foundation", "Win32_Graphics_Direct3D9", "Win32_Media_MediaFoundation", "Win32_Media_DirectShow", "Win32_UI_WindowsAndMessaging"] }
