[package]
name = "mason_registry_api"
version = "0.1.0"
edition = "2021"
publish = false

[dependencies]
url = "2"
chrono = "0.4"
semver = "1"
parse_link_header = "*"
serde = { version = "1", features = ["derive"] }
serde_json = "1"
thiserror = "*"
tracing = "0.1"
tracing-subscriber = "0.3"
reqwest = { version = "*", default-features = false, features = ["json"] }
http = "*"
vercel_runtime = "*"
vercel_lambda = "*"
crates_io_api = { version = "*", default-features = false }

[dev-dependencies]
