[package]
name = "orbit"
version = "0.1.0"
edition = "2021"
publish = false

[dependencies]
http = "1"
serde = { version = "1", features = ["derive"] }
serde_json = "1"
actix = "0.13"
actix-web = { version = "4", default-features = false, features = ["macros"] }
actix-cors = "0.7"
actix-multipart = { version = "0.7", default-features = false }
futures = "0.3"
tokio = { version = "1", features = ["fs"] }
aws-sdk-s3 = { version = "1", default-features = false, features = ["rt-tokio"] }
minio = "=0.1.0"
