[package]
name = "webcore"
version = "0.1.0"
edition = "2021"
publish = false

[dependencies]
uuid = { version = "*", features = ["v4", "v7"] }
serde_json = "*"
anyhow = "*"
axum = "*"
axum-extra = "*"
tokio = { version = "*", features = ["rt-multi-thread", "macros", "net"] }
tower = "*"
tower-http = { version = "*", features = ["trace"] }
tracing = "*"
tracing-subscriber = { version = "*", features = ["env-filter"] }
dotenvy = "*"
sqlx = { version = "*", default-features = false, features = ["postgres", "runtime-tokio"] }
