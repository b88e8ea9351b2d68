[package]
name = "mnist_pipeline"
version = "0.1.0"
edition = "2021"
publish = false

[dependencies]
actix-web = "4"
anyhow = "1"
base64 = "0.13"
env_logger = "0.10"
image = "0.23"
serde = { version = "1", features = ["derive"] }
structopt = "0.3"
tensorflow = "*"
