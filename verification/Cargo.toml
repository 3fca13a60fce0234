[package]
name = "wlscreenaccess"
version = "0.1.0"
edition = "2021"
publish = false

[dependencies]
rand = "=0.8.8"
serde = { version = "=1.0.229", features = ["derive"] }
url = { version = "=2.5.8", features = ["serde"] }
zbus = { version = "=3.15.2", features = ["url"] }
zvariant = { version = "=3.15.2", features = ["url"] }
