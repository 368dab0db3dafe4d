[package]
name = "oasgen_core"
version = "0.1.0"
edition = "2021"
publish = false

[dependencies]
openapiv3-extended = "=6.0.1"
serde_json = "=1.0.154"
http = "=1.5.0"
axum = "=0.8.9"
uuid = "=1.29.0"
bigdecimal = "=0.4.11"
phonenumber = "=0.3.10"
serde_qs = { version = "=1.1.3", features = ["axum"] }
inventory = "=0.3.25"
