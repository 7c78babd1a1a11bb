[package]
name = "pam_zoftoken"
version = "0.1.0"
edition = "2021"
publish = false

[dependencies]
pam-bindings = "*"
reqwest = { version = "0.11", features = ["blocking", "json"] }
serde = { version = "1", features = ["derive"] }
syslog = "*"
