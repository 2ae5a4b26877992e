[package]
name = "prefsuite"
version = "0.1.0"
edition = "2021"
publish = false

[dependencies]
json = "*"
libloading = "*"
os_info = "*"
rusqlite = { version = "*", features = ["bundled"] }
sysinfo = "*"
