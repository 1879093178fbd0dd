[package]
name = "slate"
version = "0.1.0"
edition = "2021"
publish = false

[dependencies]
uuid = { version = "1", features = ["v4", "serde"] }
serde = { version = "1", features = ["derive"] }
serde_json = "1"
log = "0.4"
env_logger = "*"
gtk4 = { version = "*", features = ["v4_14"] }
libadwaita = "*"
glib = "*"
gdk4 = "*"
cairo-rs = "*"
libvips = "*"
image = "*"
