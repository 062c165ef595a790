[package]
name = "vulkan_setup"
version = "0.1.0"
edition = "2021"
publish = false

[dependencies]
anyhow = "1"
cgmath = "0.18"
log = "0.4"
thiserror = "*"
vulkanalia = { version = "*", features = ["libloading", "window", "provisional"] }
winit = "*"
