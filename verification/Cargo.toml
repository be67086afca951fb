[package]
name = "program_station"
version = "0.1.0"
edition = "2021"
publish = false

[dependencies]
actix-web = { version = "=4.18.1", features = ["openssl"] }
actix-cors = "=0.7.2"
actix-files = "=0.6.10"
actix-multipart = "=0.6.2"
futures = "=0.3.34"
tokio = { version = "=1.54.1", features = ["rt", "time", "macros"] }
serde = { version = "=1.0.229", features = ["derive"] }
serde_json = { version = "=1.0.154", features = ["preserve_order"] }
jsonwebtoken = "=9.3.1"
chrono = "=0.4.45"
rand = "=0.8.8"
uuid = { version = "=1.29.0", features = ["v4"] }
toml = "=0.8.23"
lazy_static = "=1.5.1"
log = "=0.4.35"
log4rs = "=1.4.0"
r2d2 = "=0.8.10"
r2d2_mysql = "=28.0.0"
lettre = "=0.11.23"
openssl = "=0.10.82"
