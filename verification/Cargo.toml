[package]
name = "mydns_adapter"
version = "0.1.0"
edition = "2021"
publish = false

[dependencies]
bytemuck = "1"
chrono = "0.4"
clap = { version = "4", features = ["derive"] }
reqwest = { version = "0.12", features = ["blocking"] }
rpassword = "7"
windows = { version = "0.58", features = ["Win32_Foundation", "Win32_Globalization", "Win32_Security", "Win32_System_Registry", "Win32_System_Services"] }
windows-service = "0.7"
