[package]
name = "tls_tunnel"
version = "0.1.0"
edition = "2021"
publish = false

[dependencies]
clap = { version = "=4.6.7", features = ["derive"] }
rustls-pemfile = "=1.0.4"
tokio = { version = "=1.54.1", features = ["full"] }
tokio-rustls = "0.24"
webpki-roots = "=0.22.6"
