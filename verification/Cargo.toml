[package]
name = "macos_permissions"
version = "0.1.0"
edition = "2021"
publish = false

[dependencies]
macos-accessibility-client = "*"
objc2 = "*"
objc2-foundation = { version = "*", features = ["NSString"] }
