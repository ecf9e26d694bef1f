[package]
name = "selection_capture"
version = "0.1.0"
edition = "2021"
publish = false

[dependencies]
arboard = { version = "3", default-features = false }
windows = { version = "0.51", features = ["Win32_Foundation", "Win32_System_Com", "Win32_System_Console", "Win32_System_Threading", "Win32_UI_Accessibility", "Win32_UI_Input_KeyboardAndMouse", "Win32_UI_WindowsAndMessaging"] }
