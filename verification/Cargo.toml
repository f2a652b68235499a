[package]
name = "odilia_cache"
version = "0.1.0"
edition = "2021"
publish = false

[dependencies]
atspi = "0.10"
atspi-common = "0.1"
zbus = "3"
zvariant = "3"
tokio = { version = "=1.54.1", features = ["sync", "macros", "rt", "signal", "time"] }
serde = { version = "1", features = ["derive"] }
serde_plain = "1"
tini = "1"
actix = "0.13"
async-trait = "0.1"
