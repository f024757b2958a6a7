[package]
name = "chat_server"
version = "0.1.0"
edition = "2021"
publish = false

[dependencies]
async-trait = "=0.1.92"
axum = { version = "=0.7.9", features = ["macros"] }
axum-extra = { version = "=0.9.6", features = ["typed-header"] }
chrono = { version = "=0.4.45", features = ["serde"] }
color-eyre = "=0.6.5"
config = { version = "=0.14.1", default-features = false, features = ["toml"] }
futures = "=0.3.34"
itertools = "=0.13.0"
jsonwebtoken = "=9.3.1"
moka = { version = "=0.12.16", features = ["future"] }
reqwest = { version = "=0.12.28", default-features = false, features = ["json"] }
sea-orm = { version = "=1.1.20", default-features = false, features = ["macros", "runtime-tokio-rustls", "sqlx-sqlite", "with-chrono"] }
sea-orm-migration = { version = "=1.1.20", default-features = false, features = ["runtime-tokio-rustls", "sqlx-sqlite"] }
serde = { version = "=1.0.229", features = ["derive"] }
serde_html_form = "=0.2.8"
serde_json = "=1.0.154"
thiserror = "=1.0.69"
tokio = { version = "=1.54.1", features = ["full"] }
tokio-stream = "=0.1.19"
tower-http = { version = "=0.5.2", features = ["fs"] }
tracing = "=0.1.44"
tracing-appender = "=0.2.5"
tracing-subscriber = { version = "=0.3.23", features = ["env-filter"] }
utoipa = { version = "=4.2.3", features = ["axum_extras"] }
utoipa-swagger-ui = { version = "=7.1.0", features = ["axum", "vendored"] }
validator = { version = "=0.18.1", features = ["derive"] }
