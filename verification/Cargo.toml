[package]
name = "hcl_evidence"
version = "0.1.0"
edition = "2021"
publish = false

[dependencies]
base64 = "0.22"
once_cell = "1"
reqwest = { version = "0.12", features = ["blocking", "json"] }
serde = { version = "1", features = ["derive"] }
serde_json = "1"
url = "2"
x509-parser = "0.17"
