[package]
name = "powernotify"
version = "0.1.0"
edition = "2021"
publish = false

[dependencies]
indexmap = { version = "=2.14.2", features = ["serde"] }
clap = { version = "=4.6.7", features = ["derive"] }
notify-rust = { version = "=4.18.2", default-features = false, features = ["z"] }
serde = { version = "=1.0.229", features = ["derive"] }
smol = "=2.0.2"
toml = "=1.1.7"
upower_dbus = "=0.3.2"
zbus = "=3.15.2"
