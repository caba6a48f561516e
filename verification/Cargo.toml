[package]
name = "thermal_print"
version = "0.1.0"
edition = "2021"
publish = false

[dependencies]
base64 = "0.22"
image = "0.25"
log = "0.4"
serde = { version = "1", features = ["derive"] }
serde_json = "1"
