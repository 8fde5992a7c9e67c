[package]
name = "tablet_tool"
version = "0.1.0"
edition = "2021"
publish = false

[dependencies]
dpi = "0.1"
smithay-client-toolkit = { version = "0.19", default-features = false }
wayland-client = "0.31"
