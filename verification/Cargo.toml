[package]
name = "pg_dispatch"
version = "0.1.0"
edition = "2021"
publish = false

[dependencies]
postgres = { version = "=0.19.14", features = ["with-chrono-0_4", "with-uuid-1"] }
postgres-protocol = "=0.6.12"
tokio-postgres = "=0.7.18"
chrono = "=0.4.45"
uuid = "=1.29.0"
rust_decimal = { version = "=1.43.0", features = ["db-postgres"] }
serde_json = "=1.0.154"
r2d2 = "=0.8.10"
r2d2_postgres = "=0.18.2"
bb8 = "=0.9.1"
bb8-postgres = "=0.9.0"
futures = "=0.3.34"
async-std = { version = "=1.13.2", features = ["attributes", "tokio1", "unstable"] }
tide = "=0.16.0"
clap = "=4.6.7"
http = "=1.5.0"

[dev-dependencies]
bytes = "=1.12.1"
