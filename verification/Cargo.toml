[package]
name = "jwt_inspect"
version = "0.1.0"
edition = "2021"
publish = false

[dependencies]
base64 = "=0.22.1"
chrono = "=0.4.45"
hmac = "=0.12.1"
rsa = "=0.9.10"
serde_json = "=1.0.151"
sha2 = { version = "=0.10.9", features = ["oid"] }
zed_extension_api = "=0.7.0"

[dev-dependencies]
rand = "=0.8.8"
