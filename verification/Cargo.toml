[package]
name = "sentinel_window"
version = "0.1.0"
edition = "2021"
publish = false

[dependencies]
crossbeam-channel = "0.5"
lazy_static = "1"
log = "0.4"
parking_lot = "0.12"
windows = { version = "0.59", features = ["Win32_Foundation", "Win32_Devices_Display", "Win32_Graphics_Gdi", "Win32_System_LibraryLoader", "Win32_System_SystemServices", "Win32_UI_WindowsAndMessaging"] }
windows-core = "0.59"
