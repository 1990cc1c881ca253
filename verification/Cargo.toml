[package]
name = "eardogger"
version = "0.1.0"
edition = "2021"
publish = false

[dependencies]
url = "=2.5.8"
regex = "=1.13.1"
sha2 = "=0.10.9"
base16ct = { version = "=0.2.0", features = ["alloc"] }
rand = "=0.8.8"
uuid = "=1.29.0"
bcrypt = "=0.15.1"
html-escape = "=0.2.15"
time = { version = "=0.3.55", features = ["formatting", "parsing", "macros", "serde"] }
axum = "=0.7.9"
tokio = { version = "=1.54.1", features = ["full"] }
tokio-util = { version = "=0.7.20", features = ["rt"] }
sqlx = { version = "=0.8.6", default-features = false, features = ["runtime-tokio", "sqlite", "migrate", "time"] }
tower-cookies = { version = "=0.10.0", features = ["signed"] }
tower-http = { version = "=0.5.2", features = ["fs"] }
tower = "=0.4.13"
http = "=1.5.0"
minijinja = { version = "=2.24.0", features = ["json"] }
serde = { version = "=1.0.229", features = ["derive"] }
serde_json = "=1.0.154"
toml = "=0.8.23"
tracing = "=0.1.44"
tracing-subscriber = { version = "=0.3.23", features = ["env-filter"] }
tracing-appender = "=0.2.5"
anyhow = "=1.0.104"
thiserror = "=1.0.69"

[dev-dependencies]
percent-encoding = "=2.3.2"
