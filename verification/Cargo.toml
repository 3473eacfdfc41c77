[package]
name = "xedio"
version = "0.1.0"
edition = "2021"
publish = false

[dependencies]
k8s-openapi = { version = "=0.28.0", features = ["latest"] }
kube = { version = "=4.2.0", features = ["runtime", "derive", "client"] }
kube-leader-election = "=0.44.0"
tokio = { version = "=1.54.1", features = ["full"] }
tokio-util = "=0.7.20"
tokio-stream = "=0.1.19"
futures = "=0.3.34"
tracing = "=0.1.44"
tracing-subscriber = "=0.3.23"
async-trait = "=0.1.92"
thiserror = "=2.0.21"
bytes = "=1.12.1"
rand = "=0.9.5"
serde = { version = "=1.0.229", features = ["derive"] }
serde_json = "=1.0.154"
schemars = "=1.2.3"
