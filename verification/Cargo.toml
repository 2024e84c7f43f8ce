[package]
name = "img_redirect"
version = "0.1.0"
edition = "2021"
publish = false

[dependencies]
actix-web = { version = "4", default-features = false, features = ["macros", "cookies"] }
actix-session = { version = "*", features = ["cookie-session"] }
reqwest = { version = "*", default-features = false, features = ["json"] }
serde = { version = "1", features = ["derive"] }
uuid = { version = "1", features = ["v4"] }
env_logger = { version = "*", default-features = false }
