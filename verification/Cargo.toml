[package]
name = "cosmic-caffeineland"
version = "0.1.0"
edition = "2021"
publish = false

[dependencies]
sys-locale = "0.3"
lazy_static = "1.4"
notify-rust = "4.10"
tokio = { version = "1", features = ["full"] }
wayland-client = "0.31"
wayland-protocols = { version = "0.31", features = ["client", "unstable"] }
zbus = { version = "5", default-features = false, features = ["blocking-api", "tokio"] }
