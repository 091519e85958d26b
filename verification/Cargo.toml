[package]
name = "mdl_presentation"
version = "0.1.0"
edition = "2021"
publish = false

[dependencies]
isomdl = "=0.2.0"
x509-cert = { version = "=0.2.5", features = ["builder", "hazmat", "pem"] }
p256 = { version = "=0.13.2", features = ["ecdsa", "pem", "pkcs8", "jwk", "serde"] }
sha2 = "=0.10.9"
signature = "=2.2.0"
ciborium = "=0.2.2"
coset = "=0.3.8"
base64 = "=0.23.1"
serde = { version = "=1.0.229", features = ["derive"] }
serde_json = "=1.0.151"
uuid = { version = "=1.27.0", features = ["v4"] }
time = "=0.3.55"

[dev-dependencies]
rand_core = { version = "=0.6.4", features = ["getrandom"] }
