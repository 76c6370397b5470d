[package]
name = "spanner_rs"
version = "0.1.0"
edition = "2021"
publish = false

[dependencies]
async-trait = "0.1"
base64 = "=0.13.1"
bb8 = "=0.9.1"
bigdecimal = "=0.4.11"
chrono = { version = "=0.4.45", default-features = false, features = ["std"] }
derive_builder = "=0.20.2"
dyn-clone = "1"
gcp_auth = "=0.12.7"
google-api-proto = { version = "=1.710.0", features = ["google-spanner-v1"] }
http = "1"
prost = "=0.13.5"
prost-types = "=0.13.5"
serde_json = "1"
thiserror = "1"
tokio = { version = "1", features = ["rt", "sync", "macros"] }
tonic = { version = "=0.12.3", features = ["tls"] }
tower = { version = "=0.4.13", features = ["filter", "util"] }
