[package]
name = "waywallen-layer-shell"
version = "0.1.0"
edition = "2021"
publish = false

[dependencies]
anyhow = "=1.0.104"
ash = "=0.38.0"
env_logger = "=0.11.11"
gettext-rs = { version = "=0.7.7", features = ["gettext-system"] }
libc = "=0.2.191"
log = "=0.4.35"
md-5 = "=0.10.6"
wayland-backend = { version = "=0.3.17", features = ["client_system", "dlopen"] }
wayland-client = { version = "=0.31.15", features = ["system"] }
wayland-protocols = { version = "=0.32.13", features = ["client", "staging", "unstable"] }
wayland-protocols-wlr = { version = "=0.3.12", features = ["client"] }
