[package]
name = "notify"
version = "0.1.0"
edition = "2021"
publish = false

[dependencies]
gtk4 = "*"
gdk4 = "*"
glib = "*"
gtk4-layer-shell = "*"
zbus = { version = "*", features = ["tokio"] }
tokio = { version = "*", features = ["full"] }
serde = { version = "*", features = ["derive"] }
toml = "*"
env_logger = "*"
