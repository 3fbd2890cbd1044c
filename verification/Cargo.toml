[package]
name = "hbp"
version = "0.1.0"
edition = "2021"
publish = false

[dependencies]
regex = "1"
sha2 = "0.10"
httpstatus = "*"
bcrypt = "*"
nanoid = "0.4"
mime_guess = "2"
rand = "0.8"
chrono = { version = "0.4", default-features = false, features = ["std"] }
rocket = { version = "0.5", features = ["json", "secrets"] }
sled = "0.34"
serde = { version = "1", features = ["derive"] }
serde_json = "1"
log = "0.4"
mustache = "0.9"
dotenv = "0.15"
reqwest = { version = "0.11", default-features = false, features = ["json", "rustls-tls"] }
