[package]
name = "zen_rule_server"
version = "0.1.0"
edition = "2021"
publish = false

[dependencies]
serde_json = "1"
serde = { version = "1", features = ["derive"] }
actix-web = { version = "4", default-features = false, features = ["macros"] }
actix-cors = "0.7"
config = { version = "0.15", default-features = false }
dotenv = "0.15"
zen-engine = { version = "=0.55.1", default-features = false }
