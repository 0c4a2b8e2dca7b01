[package]
name = "token_issuer"
version = "0.1.0"
edition = "2021"
publish = false

[dependencies]
privacypass = "=0.1.0"
voprf = { version = "=0.5.0", features = ["danger"] }
tokio = { version = "=1.54.1", features = ["rt", "rt-multi-thread"] }
base64 = "=0.23.1"
generic-array = "=0.14.9"
http = "=1.5.0"
rand = "=0.8.8"
tls_codec = "=0.5.0"
serde = { version = "=1.0.229", features = ["derive"] }
serde_json = "=1.0.154"
thiserror = "=2.0.21"
async-trait = "=0.1.92"
