[package]
name = "win32_notification"
version = "0.1.0"
edition = "2021"
publish = false

[dependencies]
getrandom = "*"
winapi = { version = "0.3", features = ["guiddef", "winerror", "combaseapi", "errhandlingapi", "shellapi"] }
