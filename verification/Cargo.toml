[package]
name = "wayland_event_loop"
version = "0.1.0"
edition = "2021"
publish = false

[dependencies]
wayland-client = "*"
