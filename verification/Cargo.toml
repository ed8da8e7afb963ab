[package]
name = "system_uri"
version = "0.4.0"
edition = "2021"
publish = false

[dependencies]
ffi_utils = "*"
quick-error = "1.2"
winapi = { version = "0.3", features = ["ntdef", "windef"] }
winreg = "*"
