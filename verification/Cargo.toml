[package]
name = "gpsami"
version = "0.1.0"
edition = "2021"
publish = false

[dependencies]
async-channel = "*"
dirs-next = "*"
env_logger = "*"
gettext-rs = { version = "*", features = ["gettext-system"] }
gtk-macros = "*"
gtk4 = "*"
gudev = "*"
libadwaita = "*"
libudev = "*"
log = "*"
once_cell = "*"
serde = { version = "*", features = ["derive"] }
serde_json = "*"
tempfile = "*"
