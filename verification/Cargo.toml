[package]
name = "sqldb_mysql"
version = "0.1.0"
edition = "2021"
publish = false

[dependencies]
anyhow = "1"
mysql_async = { version = "=0.36.2", default-features = false, features = ["default-rustls-ring"] }
serde_json = "=1.0.154"
sha2 = "=0.10.9"
tokio = { version = "1", features = ["macros", "rt-multi-thread", "sync"] }
tracing = "0.1"
ulid = "=1.2.1"
wasmcloud-provider-sdk = { version = "=0.13.0", default-features = false, features = ["otel"] }
wit-bindgen-wrpc = "=0.10.0"

[dev-dependencies]
num-traits = "=0.2.19"
