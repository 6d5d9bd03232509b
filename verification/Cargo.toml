[package]
name = "showit"
version = "0.1.16"
edition = "2021"
publish = false

[dependencies]
anyhow = "1"
clap = { version = "4", features = ["derive"] }
clap-version-flag = "*"
colored = "2"
dirs = "*"
regex = "1"
serde = { version = "1", features = ["derive"] }
toml = "*"
windows = { version = "0.52", features = ["Win32_Foundation", "Win32_System_Console", "Win32_System_Threading", "Win32_UI_WindowsAndMessaging"] }
