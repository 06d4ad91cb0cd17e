[package]
name = "rutmf"
version = "0.1.0"
edition = "2021"
publish = false

[dependencies]
async-trait = "=0.1.92"
bytes = "=1.12.1"
chrono = { version = "=0.4.45", default-features = false, features = ["std", "serde"] }
futures-core = "=0.3.34"
http = "=1.5.0"
indexmap = "=2.14.2"
reqwest = { version = "=0.12.28", default-features = false, features = ["json"] }
rust_decimal = "=1.43.0"
serde = { version = "=1.0.229", features = ["derive"] }
serde_json = { version = "=1.0.154", features = ["preserve_order"] }
thiserror = "=2.0.21"
tokio = { version = "=1.54.1", features = ["time", "sync"] }

[dev-dependencies]
tokio = { version = "=1.54.1", features = ["time", "sync", "macros", "rt"] }
