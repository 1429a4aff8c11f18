[package]
name = "pi_natives"
version = "0.1.0"
edition = "2021"
publish = false

[dependencies]
tokio = { version = "*", features = ["process", "rt", "rt-multi-thread", "macros", "time", "sync"] }
tokio-util = "*"
futures = "*"
image = { version = "*", default-features = false, features = ["png"] }
html-to-markdown-rs = "*"
arboard = "*"
globset = "*"
ignore = "*"
whoami = "*"
homedir = "*"
windows-sys = { version = "*", features = ["Win32_Foundation", "Win32_Security", "Win32_System_Threading", "Win32_System_Console", "Win32_System_Diagnostics_ToolHelp", "Win32_UI_WindowsAndMessaging"] }
