[package]
name = "pg_temporal"
version = "0.1.0"
edition = "2021"
publish = false

[dependencies]
temporal_rs = { version = "0.2", features = ["compiled_data"] }
timezone_provider = "*"
pgrx = "0.17"
serde = { version = "1", features = ["derive"] }
