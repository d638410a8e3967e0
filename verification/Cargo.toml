[package]
name = "anything_runtime"
version = "0.1.0"
edition = "2021"
publish = false

[dependencies]
uuid = { version = "=1.27.0", features = ["v4"] }
libloading = "=0.9.0"
fs_extra = "=1.3.0"

[dev-dependencies]
duct = "*"
