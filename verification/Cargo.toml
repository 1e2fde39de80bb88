[package]
name = "dwrote"
version = "0.11.0"
edition = "2021"
publish = false

[dependencies]
lazy_static = "1.4"
serde = { version = "1.0", features = ["derive"] }
windows = { version = "0.61", features = ["Win32_Foundation", "Win32_Globalization", "Win32_Graphics_DirectWrite", "Win32_Graphics_Direct2D_Common", "Win32_Graphics_Gdi", "Win32_System_SystemServices"] }
windows-core = "0.61"
windows-numerics = "0.2"
