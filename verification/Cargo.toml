[package]
name = "op1nput"
version = "0.1.0"
edition = "2021"
publish = false

[dependencies]
midir = "*"
tokio = { version = "1", features = ["macros", "rt-multi-thread", "sync"] }
tray-item = "*"
winapi = { version = "0.3", features = ["winuser"] }
