[package]
name = "proxy_probe"
version = "0.1.0"
edition = "2021"
publish = false

[dependencies]
anyhow = "*"
bytes = "*"
clap = { version = "*", features = ["derive"] }
h2 = "*"
http = "*"
libc = "*"
rustls = { version = "*", default-features = false, features = ["ring", "logging", "std", "tls12"] }
rustls-pemfile = "*"
tokio = { version = "*", features = ["full"] }
tokio-rustls = { version = "*", default-features = false, features = ["ring", "logging", "tls12"] }
tracing = "*"
tracing-subscriber = { version = "*", features = ["env-filter"] }

[dev-dependencies]
serde_json = "*"
