[package]
name = "ff78_launcher"
version = "0.1.0"
edition = "2021"
publish = false

[dependencies]
toml = "0.8"
anyhow = "1"
log = "0.4"
simple-logging = "2"
windows = { version = "0.58", features = [
    "Win32_Foundation",
    "Win32_Graphics_Gdi",
    "Win32_System_Com",
    "Win32_System_Diagnostics_Debug",
    "Win32_System_Kernel",
    "Win32_System_Memory",
    "Win32_System_Threading",
    "Win32_UI_Shell",
    "Win32_UI_WindowsAndMessaging",
] }
