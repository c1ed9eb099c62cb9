[package]
name = "hitsave_api"
version = "0.1.0"
edition = "2021"
publish = false

[dependencies]
actix-rt = "=2.15.0"
actix-web = "=4.18.1"
async-trait = "=0.1.92"
aws-config = { version = "=1.13.0", default-features = false, features = ["rt-tokio", "rustls", "behavior-version-latest"] }
aws-sdk-s3 = { version = "=1.155.0", default-features = false, features = ["rt-tokio", "rustls", "behavior-version-latest"] }
blake3 = { version = "=1.8.7", features = ["pure"] }
bytes = "=1.12.1"
chrono = { version = "=0.4.45", features = ["serde"] }
clap = { version = "=3.2.25", features = ["derive"] }
dotenv = "=0.15.0"
futures = "=0.3.34"
http-body = "=1.1.0"
http-body-util = "=0.1.5"
jsonwebtoken = "=9.3.1"
log = "=0.4.34"
mime = "=0.3.17"
nonblock-logger = "=0.2.2"
rand = "=0.8.8"
rand_chacha = "=0.3.1"
reqwest = { version = "=0.12.28", default-features = false, features = ["json", "rustls-tls"] }
rmp-serde = "=1.3.1"
serde = { version = "=1.0.229", features = ["derive"] }
serde_json = "=1.0.154"
serde_qs = "=1.1.3"
sqlx = { version = "=0.8.6", default-features = false, features = ["postgres", "runtime-tokio", "uuid", "chrono", "json", "migrate", "derive"] }
url = "=2.5.8"
uuid = { version = "=1.29.0", features = ["serde"] }
