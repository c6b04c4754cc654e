[package]
name = "oxc_language_server"
version = "0.1.0"
edition = "2021"
publish = false

[dependencies]
env_logger = { version = "0.11", default-features = false }
futures = "0.3"
globset = "=0.4.21"
ignore = "=0.4.34"
log = "0.4"
papaya = "=0.2.5"
rustc-hash = "=2.1.3"
serde = { version = "1", features = ["derive"] }
serde_json = "1"
tokio = { version = "1", features = ["rt-multi-thread", "io-std", "macros", "sync"] }
tower-lsp-server = { version = "=0.21.1", features = ["proposed"] }
