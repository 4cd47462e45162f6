[package]
name = "game_time_manager"
version = "0.1.0"
edition = "2021"
publish = false

[dependencies]
regex = "1"
serde = { version = "1", features = ["derive"] }
toml = "0.7"
sysinfo = { version = "0.29", default-features = false }
windows = { version = "0.48", features = ["Win32_Foundation", "Win32_UI_Shell", "Win32_UI_Shell_PropertiesSystem", "Win32_UI_WindowsAndMessaging", "Win32_Graphics_Gdi", "Win32_Storage_EnhancedStorage", "Win32_System_Com"] }
winapi = { version = "0.3", features = ["winuser", "wingdi"] }
native-windows-gui = "1"
native-windows-derive = "1"
