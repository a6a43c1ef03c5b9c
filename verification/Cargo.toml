[package]
name = "live_activity"
version = "0.1.0"
edition = "2021"
publish = false

[dependencies]
serde = { version = "*", features = ["derive"] }
mac-notification-sys = "*"
win-toast-notify = "*"
