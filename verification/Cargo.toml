[package]
name = "systray_doom"
version = "0.1.0"
edition = "2021"
publish = false

[dependencies]
doomgeneric = "=0.3.0"
windows = { version = "=0.52.0", features = [
    "Win32_Foundation",
    "Win32_Graphics_Gdi",
    "Win32_System_LibraryLoader",
    "Win32_UI_Input_KeyboardAndMouse",
    "Win32_UI_Shell",
    "Win32_UI_WindowsAndMessaging",
] }
