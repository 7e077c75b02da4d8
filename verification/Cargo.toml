[package]
name = "router_core"
version = "0.1.0"
edition = "2021"
publish = false

[dependencies]
hex = "=0.4.3"
nanoid = "=0.4.0"
serde = { version = "=1.0.229", features = ["derive"] }
serde_json = "=1.0.154"
time = { version = "=0.3.36", features = ["serde", "serde-well-known"] }
url = "=2.5.8"
diesel = { version = "~2.2", default-features = false, features = ["postgres_backend", "time", "serde_json", "32-column-tables"] }
