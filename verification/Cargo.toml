[package]
name = "rappel"
version = "0.1.0"
edition = "2021"
publish = false

[dependencies]
anyhow = "1"
async-trait = "0.1"
bytes = "1"
chrono = "0.4"
config = { version = "0.13", default-features = false, features = ["toml"] }
futures = "0.3"
k8s-openapi = { version = "0.17", features = ["v1_26"] }
kube = { version = "0.78", default-features = false }
prost = "0.11"
prost-types = "0.11"
redis = { version = "0.22", default-features = false, features = ["aio", "tokio-comp"] }
serde = { version = "1", features = ["derive"] }
serde_derive = "1"
serde_json = "1"
thiserror = "1"
tokio = { version = "1", features = ["full"] }
tonic = "0.8"
tonic-health = "0.8"
tracing = "0.1"
tracing-futures = "0.2"
tracing-subscriber = { version = "0.3", features = ["json"] }
uuid = { version = "1", features = ["v4"] }
