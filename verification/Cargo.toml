[package]
name = "rusoto_errors"
version = "0.1.0"
edition = "2021"
publish = false

[dependencies]
rusoto_core = { version = "=0.42.0", default-features = false, features = ["rustls"] }
rusoto_secretsmanager = { version = "=0.42.0", default-features = false, features = ["rustls"] }
rusoto_ssm = { version = "=0.42.0", default-features = false, features = ["rustls"] }
serde_json = "1"

[dev-dependencies]
bytes = "0.4"
http = "0.1"
