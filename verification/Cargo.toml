[package]
name = "what_anime"
version = "0.1.0"
edition = "2021"
publish = false

[dependencies]
kakasi = "*"
deunicode = "*"
fuzzywuzzy = "*"
hex = "*"
base64 = "*"
rand = "*"
chrono = "*"
log = "*"
env_logger = "*"
dotenvy = "*"
futures = "*"
serde = { version = "1", features = ["derive"] }
serde_json = "1"
tokio = { version = "1", features = ["rt-multi-thread", "macros", "time", "net"] }
axum = "*"
tower-http = { version = "*", features = ["cors"] }
tower-sessions = "*"
reqwest = { version = "*", default-features = false, features = ["json", "rustls-tls"] }
sqlx = { version = "*", default-features = false, features = ["postgres", "runtime-tokio", "migrate", "json"] }

[dev-dependencies]
regex = "1"
