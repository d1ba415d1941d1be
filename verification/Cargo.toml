[package]
name = "fritz_tr064_upnp"
version = "0.1.0"
edition = "2021"
publish = false

[dependencies]
url = "2"
serde = { version = "1", features = ["derive"] }
serde-xml-rs = "0.6"
thiserror = "1"
reqwest = { version = "0.11", default-features = false, features = ["blocking"] }
