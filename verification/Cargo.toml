[package]
name = "abetal"
version = "0.1.0"
edition = "2021"
publish = false

[dependencies]
twox-hash = "=2.1.5"
uuid = { version = "=1.27.0", features = ["v4", "serde"] }
rand = "=0.9.5"
chrono = { version = "=0.4.45", features = ["serde"] }
serde = { version = "*", features = ["derive"] }
serde_json = "*"
log = "*"
log4rs = "*"
anyhow = "*"
futures = "*"
tokio = { version = "*", features = ["rt", "macros", "sync", "time"] }
actix-web = "*"
reqwest = { version = "*", default-features = false, features = ["json", "rustls-tls"] }
rdkafka = "*"
