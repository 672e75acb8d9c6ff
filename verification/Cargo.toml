[package]
name = "lomba_core"
version = "0.1.0"
edition = "2021"
publish = false

[dependencies]
actix-cors = "0.7"
actix-files = "0.6"
actix-multipart = "0.7"
actix-web = "4"
actix-ws = "*"
bcrypt = "*"
chrono = { version = "0.4", features = ["serde"] }
futures-util = "0.3"
jsonwebtoken = "9"
mime_guess = "2"
rand = "0.8"
rusqlite = { version = "*", features = ["bundled"] }
sanitize-filename = "*"
serde = { version = "1", features = ["derive"] }
serde_json = "1"
tokio = { version = "1", features = ["full"] }
uuid = { version = "1", features = ["v4", "serde"] }
zip = { version = "*", default-features = false, features = ["deflate"] }
