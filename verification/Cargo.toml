[package]
name = "lcard_dac_signal_generator"
version = "0.1.0"
edition = "2021"
publish = false

[dependencies]
crossterm = "0.28"
windows = { version = "0.58", features = ["Win32_Foundation", "Win32_Security", "Win32_System_IO", "Win32_System_Threading", "Win32_System_LibraryLoader", "Win32_System_Console"] }
