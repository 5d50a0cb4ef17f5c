[package]
name = "blobstore"
version = "0.1.0"
edition = "2021"
publish = false

[dependencies]
ulid = "*"
serde_json = "*"
axum = "*"
tokio = { version = "*", features = ["rt-multi-thread", "macros", "signal", "net"] }
tower = { version = "*", features = ["limit", "util"] }
sqlx = { version = "*", default-features = false, features = ["postgres", "runtime-tokio", "uuid"] }
tracing = "*"
tracing-subscriber = { version = "*", features = ["env-filter", "fmt"] }
