[package]
name = "platform_napi"
version = "0.1.0"
edition = "2021"
publish = false

[dependencies]
napi = { version = "2", default-features = false, features = ["napi6"] }
napi-derive = "2"
os_info = { version = "3", default-features = false }
rdev = "0.5"
windows = { version = "0.48", features = ["Win32_Foundation", "Win32_Graphics_Gdi", "Win32_System_Shutdown", "Win32_System_Threading", "Win32_UI_Input", "Win32_UI_Input_KeyboardAndMouse", "Win32_UI_Shell", "Win32_UI_WindowsAndMessaging"] }
