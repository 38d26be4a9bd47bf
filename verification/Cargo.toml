[package]
name = "kusanagi"
version = "0.1.0"
edition = "2021"
publish = false

[dependencies]
chrono = "0.4"
serde = { version = "1", features = ["derive"] }
serde_json = "1"
kube = "*"
k8s-openapi = { version = "=0.27.1", features = ["latest"] }
actix = "*"
actix-web = "4"
actix-web-actors = "*"
actix-files = "*"
reqwest = { version = "*", default-features = false, features = ["json", "rustls-tls"] }
tokio = { version = "1", features = ["macros", "rt-multi-thread", "time"] }
tracing = "*"
tracing-subscriber = "*"
rand = "*"
http = "*"
