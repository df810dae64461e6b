[package]
name = "dynoxide"
version = "0.1.0"
edition = "2021"
publish = false

[dependencies]
axum = { version = "0.8", default-features = false }
serde = { version = "1", features = ["derive"] }
serde_json = "1"
socket2 = "*"
windows-sys = { version = "*", features = ["Win32_Networking_WinSock"] }
