[package]
name = "ve_exporter"
version = "0.1.0"
edition = "2021"
publish = false

[dependencies]
serde_json = "1"
serde = { version = "1", features = ["derive"] }
actix-web = "3"
actix-rt = "1"
reqwest = { version = "0.10", default-features = false, features = ["rustls-tls"] }
handlebars = { version = "3", features = ["dir_source"] }
clap = "2"
env_logger = "0.7"
log = "0.4"
