[package]
name = "cosmic-applet-app-title"
version = "0.1.0"
edition = "2021"
publish = false

[dependencies]
freedesktop-desktop-entry = "=0.8.4"
gettext-rs = { version = "=0.8.0", features = ["gettext-system"] }
futures = "=0.3.34"
iced_futures = "=0.14.0"
tracing = "0.1"
tracing-log = "0.2"
tracing-subscriber = { version = "0.3", features = ["env-filter"] }
