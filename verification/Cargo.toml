[package]
name = "solsensor"
version = "0.1.0"
edition = "2021"
publish = false

[dependencies]
argon2rs = "=0.2.5"
base64 = "=0.23.1"
chrono = { version = "=0.4.45", features = ["serde"] }
diesel = { version = "=2.3.14", features = ["sqlite", "chrono"] }
diesel_migrations = "*"
rand = "=0.10.3"
rocket = { version = "=0.5.2", features = ["json", "secrets"] }
rocket_dyn_templates = { version = "*", features = ["tera"] }
serde = { version = "=1.0.229", features = ["derive"] }
serde_json = "=1.0.154"
