[package]
name = "keyremap"
version = "0.1.0"
edition = "2021"
publish = false

[dependencies]
pc-keyboard = "0.7"
once_cell = "1"
tokio = { version = "1", features = ["rt-multi-thread", "macros", "signal"] }
windows = { version = "0.58", features = ["Win32_Foundation", "Win32_UI_WindowsAndMessaging", "Win32_UI_Input_KeyboardAndMouse"] }
