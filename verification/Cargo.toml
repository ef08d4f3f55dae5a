[package]
name = "customer_auth"
version = "0.1.0"
edition = "2021"
publish = false

[dependencies]
bcrypt = "*"
jsonwebtoken = "9"
serde_json = { version = "1", features = ["raw_value"] }
serde = { version = "1", features = ["derive"] }
actix-web = "4"
actix-session = { version = "*", features = ["cookie-session"] }
dotenv = "0.15"
rusoto_core = { version = "0.48", default-features = false, features = ["rustls"] }
rusoto_dynamodb = { version = "0.48", default-features = false, features = ["rustls"] }
