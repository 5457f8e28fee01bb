[package]
name = "todoapp_server"
version = "0.1.0"
edition = "2021"
publish = false

[dependencies]
anyhow = "1"
askama = "0.12"
askama_axum = "0.4"
axum = "0.7"
axum-tracing-opentelemetry = "0.16"
chrono = { version = "0.4", features = ["serde"] }
dotenv = "0.15"
futures = "0.3"
mime_guess = "2"
notify = "6"
opentelemetry-otlp = { version = "0.14", default-features = false, features = ["http-proto", "reqwest-client", "trace"] }
opentelemetry_sdk = { version = "0.21", features = ["rt-tokio"] }
opentelemetry-semantic-conventions = "0.13"
rand = "0.8"
random_word = { version = "0.4", features = ["en"] }
regex = "1"
serde = { version = "1", features = ["derive"] }
sqlx = { version = "0.7", default-features = false, features = ["runtime-tokio", "postgres", "chrono", "macros", "migrate"] }
thiserror = "1"
tokio = { version = "1", features = ["full"] }
tokio-stream = { version = "0.1", features = ["sync"] }
tower-http = { version = "0.5", features = ["cors", "trace", "compression-full"] }
tower-livereload = "0.9"
tracing = "0.1"
tracing-opentelemetry = "0.22"
tracing-subscriber = { version = "0.3", features = ["env-filter"] }
url = "2"
utoipa = { version = "4", features = ["axum_extras", "chrono"] }
utoipa-swagger-ui = { version = "6", features = ["axum"] }
uuid = { version = "1", features = ["v4"] }
