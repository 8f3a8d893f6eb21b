[package]
name = "kernel_gossip"
version = "0.1.0"
edition = "2021"
publish = false

[dependencies]
chrono = "=0.4.45"
serde = { version = "*", features = ["derive"] }
serde_json = "*"
tokio = { version = "*", features = ["full"] }
axum = "*"
kube = { version = "=3.1.0", default-features = false, features = ["client", "runtime", "derive", "rustls-tls"] }
k8s-openapi = { version = "=0.27.1", features = ["latest"] }
reqwest = { version = "*", default-features = false, features = ["json", "rustls-tls"] }
anyhow = "*"
thiserror = "*"
tracing = "*"
tracing-subscriber = { version = "*", features = ["env-filter"] }
futures = "*"
glob = "*"
schemars = "*"
aya = "*"
bytes = "*"
