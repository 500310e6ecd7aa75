[package]
name = "url_scheme_handler"
version = "0.1.0"
edition = "2021"
publish = false

[dependencies]
base64 = "*"
flate2 = "*"
serde = { version = "*", features = ["derive"] }
serde_json = "*"
winapi = { version = "0.3", features = ["winuser"] }
winreg = "*"
