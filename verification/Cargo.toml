[package]
name = "media_player"
version = "0.1.0"
edition = "2021"
publish = false

[dependencies]
slint = { version = "=1.18.1", default-features = false, features = ["std", "compat-1-2"] }
windows = { version = "=0.59.0", features = ["Win32_Foundation", "Win32_Media_Audio", "Win32_Media_Multimedia"] }
