[package]
name = "rs_cdn"
version = "0.1.0"
edition = "2021"
publish = false

[dependencies]
actix-cors = "0.6"
actix-multipart = "0.6"
actix-web = { version = "4", default-features = false, features = ["macros"] }
anyhow = "1"
base64 = "0.21"
colored = "2"
confy = "0.5"
futures-util = "0.3"
hex = "0.4"
image = { version = "0.24", default-features = false, features = ["gif", "jpeg", "png", "webp"] }
log = "0.4"
log4rs = "1"
openssl = "0.10"
redis = "0.23"
regex = "1"
serde = { version = "1", features = ["derive"] }
serde_json = "1"
thiserror = "1"
tokio = { version = "1", features = ["macros", "rt-multi-thread"] }
