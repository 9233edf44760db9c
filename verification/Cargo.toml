[package]
name = "quake_modoki"
version = "0.1.0"
edition = "2021"
publish = false

[dependencies]
anyhow = "*"
global-hotkey = "*"
muda = "*"
notify-rust = "*"
thiserror = "*"
tracing = "*"
tracing-subscriber = "*"
tray-icon = "*"
winreg = "*"

[dependencies.windows]
version = "*"
features = [
    "Win32_Foundation",
    "Win32_Graphics_Dwm",
    "Win32_Graphics_Gdi",
    "Win32_System_Console",
    "Win32_UI_Accessibility",
    "Win32_UI_WindowsAndMessaging",
]
