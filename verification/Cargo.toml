[package]
name = "rdrive"
version = "0.1.0"
edition = "2021"
publish = false

[dependencies]
chrono = "=0.4.45"
glob = "=0.3.4"
google-drive3 = "=5.0.5"
hyper = "=0.14.32"
hyper-rustls = "=0.25.0"
log = "=0.4.34"
log4rs = "=1.4.0"
mime = "=0.3.17"
mime_guess = "=2.0.5"
rusqlite = { version = "=0.31.0", features = ["bundled"] }
serde = { version = "=1.0.229", features = ["derive"] }
serde_json = "=1.0.154"
tokio = { version = "=1.54.1", features = ["macros", "rt-multi-thread"] }
yup-oauth2 = "=9.0.0"
