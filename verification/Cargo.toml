[package]
name = "supergfxctl"
version = "5.2.0"
edition = "2021"
publish = false

[dependencies]
log = "*"
serde = "*"
serde_derive = "*"
serde_json = "*"
tokio = { version = "*", features = ["rt", "time", "sync", "macros"] }
zbus = "*"
logind-zbus = "*"
