[package]
name = "snowflake_api"
version = "0.1.0"
edition = "2021"
publish = false

[dependencies]
async-trait = "*"
base64 = "=0.23.1"
bytes = "*"
getrandom = "=0.4.3"
http = "*"
open = "*"
reqwest = { version = "*", default-features = false, features = ["json", "gzip"] }
reqwest-middleware = "*"
reqwest-retry = "*"
serde = { version = "*", features = ["derive"] }
serde_json = "*"
thiserror = "*"
url = "=2.5.8"
urlencoding = "=2.1.3"
