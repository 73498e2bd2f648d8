[package]
name = "helpdesk"
version = "0.1.0"
edition = "2021"
publish = false

[dependencies]
jsonwebtoken = "9"
bcrypt = "0.15"
chrono = "0.4"
serde = { version = "1", features = ["derive"] }
serde_json = "1"
axum = "0.7"
tokio = { version = "1", features = ["rt-multi-thread", "macros", "net"] }
tera = "1"
sqlx = { version = "0.7", features = ["mysql", "runtime-tokio"], default-features = false }
dotenv = "0.15"
tower-http = { version = "0.5", features = ["fs"] }
async-trait = "0.1"
