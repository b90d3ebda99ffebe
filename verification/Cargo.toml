[package]
name = "editor_cms"
version = "0.1.0"
edition = "2021"
publish = false

[dependencies]
bcrypt = "*"
actix-web = "*"
actix-identity = "*"
actix-session = { version = "*", features = ["cookie-session"] }
actix-rt = "*"
serde = { version = "*", features = ["derive"] }
