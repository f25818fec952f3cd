[package]
name = "brewkeep"
version = "0.1.0"
edition = "2021"
publish = false

[dependencies]
windows-core = "=0.58.0"
windows = { version = "=0.58.0", features = ["Win32_Foundation", "Win32_System_Power", "Win32_System_Registry"] }
ico = "=0.6.0"
tray-icon = "=0.26.1"
tao = "=0.37.2"
