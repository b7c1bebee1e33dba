[package]
name = "macropad"
version = "0.1.0"
edition = "2021"
publish = false

[dependencies]
ab_glyph = "*"
base64 = "*"
chrono = "*"
image = "*"
imageproc = "*"
reqwest = { version = "*", default-features = false, features = ["blocking", "json", "rustls-tls"] }
rusb = "*"
serde = { version = "*", features = ["derive"] }
serde_json = "*"
sha2 = "*"
sysinfo = "*"
tungstenite = "*"
