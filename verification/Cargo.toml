[package]
name = "matchbox"
version = "0.1.0"
edition = "2021"
publish = false

[dependencies]
nanoid = "0.4"
rand = "0.8"
users = "0.11"
anyhow = "1"
async-trait = "0.1"
axum = "0.7"
hyper = { version = "0.14", features = ["full"] }
hyperlocal = "0.8"
netns-rs = "0.1"
prost = "0.12"
serde = { version = "1", features = ["derive"] }
serde_json = "1"
tokio = { version = "1", features = ["full"] }
tonic = "0.11"
