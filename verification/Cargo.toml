[package]
name = "walabot"
version = "0.1.0"
edition = "2021"
publish = false

[dependencies]
bevy_math = "*"
derive_more = { version = "*", features = ["deref", "display"] }
libloading = "*"
thiserror = "*"
uom = "*"
