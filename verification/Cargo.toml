[package]
name = "adls_backend_cache"
version = "0.1.0"
edition = "2021"
publish = false

[dependencies]
azure_core = "=0.21.0"
azure_identity = "=0.21.0"
azure_storage = "=0.21.0"
azure_storage_datalake = "=0.21.0"
lazy_static = "=1.5.1"
miette = "=7.6.0"
thiserror = "=2.0.21"
tokio = { version = "=1.53.2", features = ["sync", "rt-multi-thread"] }
