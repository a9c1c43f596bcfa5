[package]
name = "unplugged_audiobook_player"
version = "0.1.0"
edition = "2021"
publish = false

[dependencies]
chrono = "=0.4.45"
crossbeam = "=0.8.5"
libmpv2 = "=4.1.0"
log = "=0.4.34"
ratatui = "=0.29.0"
serde = { version = "=1.0.229", features = ["derive"] }
serde_json = "=1.0.154"
souvlaki = { version = "=0.8.3", default-features = false, features = ["use_zbus"] }
