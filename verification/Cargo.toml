[package]
name = "language_api"
version = "0.1.0"
edition = "2021"
publish = false

[dependencies]
lingua = { version = "=1.8.0", default-features = false, features = ["english", "french", "german", "spanish", "turkish"] }
serde_json = "=1.0.154"
serde = { version = "=1.0.229", features = ["derive"] }
warp = "=0.3.7"
tokio = { version = "=1.54.1", features = ["macros", "rt-multi-thread"] }
reqwest = { version = "=0.11.27", default-features = false, features = ["json"] }
config = "=0.11.0"
dotenv = "=0.15.0"
tracing = "=0.1.44"
tracing-subscriber = { version = "=0.3.23", features = ["env-filter"] }
bytes = "=1.12.1"
thiserror = "=1.0.69"
tonic = { version = "=0.11.0", default-features = false, features = ["codegen", "prost", "transport"] }
prost = "=0.12.6"
