[package]
name = "auth_gate"
version = "0.1.0"
edition = "2021"
publish = false

[dependencies]
jsonwebtoken = { version = "=11.1.0", features = ["rust_crypto"] }
serde_json = "=1.0.151"
serde = { version = "*", features = ["derive"] }
actix-web = "*"
actix-cors = "*"
actix-web-httpauth = "*"
awc = "*"
mongodb = "2"
futures-util = "*"
async-trait = "*"
dotenv = "*"
env_logger = "*"
twelf = { version = "*", features = ["yaml"] }
derive_more = "0.99"
strum_macros = "*"
