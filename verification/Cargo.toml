[package]
name = "kwpm-api"
version = "0.1.0"
edition = "2021"
publish = false

[dependencies]
anyhow = "1"
k8s-openapi = { version = "*", features = ["latest"] }
kube = "*"
serde_yaml = "0.9"
tokio = { version = "1", features = ["macros", "rt-multi-thread"] }
