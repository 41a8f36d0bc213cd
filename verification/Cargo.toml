[package]
name = "postgres_bindgen"
version = "0.1.0"
edition = "2021"
publish = false

[dependencies]
clap = { version = "*", features = ["derive"] }
codegen = "*"
heck = "*"
postgres = "*"
postgres-protocol = "*"
ron = "*"
serde = { version = "*", features = ["derive"] }
serde_json = "*"
