[package]
name = "current_song"
version = "0.1.0"
edition = "2021"
publish = false

[dependencies]
anyhow = "1"
ctrlc = "3"
dirs = "4"
flume = { version = "0.10", default-features = false }
native-windows-gui = "1"
open = "3"
parking_lot = "0.12"
serde = { version = "1", features = ["derive"] }
serde_json = "1"
sysinfo = "0.27"
thiserror = "1"
winapi = { version = "0.3", features = ["minwindef", "windef", "winuser"] }
windows-sys = { version = "0.45", features = ["Win32_Foundation", "Win32_Graphics_Gdi", "Win32_UI_WindowsAndMessaging"] }
