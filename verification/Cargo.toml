[package]
name = "nimbus_auth"
version = "0.1.0"
edition = "2021"
publish = false

[dependencies]
url = "2"
ed25519-dalek = { version = "2", features = ["rand_core", "pkcs8", "pem"] }
rand = "0.8"
time = "0.3"
ulid = "1"
axum = "0.8"
axum-extra = { version = "0.10", features = ["cookie"] }
tokio = { version = "1", features = ["full"] }
tower-http = { version = "0.6", features = ["cors", "trace", "set-header"] }
sqlx = { version = "0.8", default-features = false, features = ["postgres", "runtime-tokio", "time", "derive"] }
tracing = "0.1"
thiserror = "2"
prost = "0.13"
zeroize = "1"
