[package]
name = "webserver"
version = "0.1.0"
edition = "2021"
publish = false

[dependencies]
serde_json = "1"
serde = { version = "1", features = ["derive"] }
base64 = "0.22"
rand = "0.9"
actix-web = "4"
actix-web-lab = "*"
actix-files = "0.6"
tokio = { version = "1", features = ["sync", "rt", "macros", "fs", "time"] }
futures = "0.3"
clap = { version = "4", features = ["derive"] }
dotenv = "0.15"
tracing = "0.1"
tracing-subscriber = { version = "0.3", features = ["env-filter"] }
thiserror = "1"
num_cpus = "1"
