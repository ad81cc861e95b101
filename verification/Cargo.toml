[package]
name = "checkin_board"
version = "0.1.0"
edition = "2021"
publish = false

[dependencies]
bcrypt = "0.15"
chrono = { version = "0.4", default-features = false, features = ["clock", "std"] }
dotenv = "0.15"
jsonwebtoken = { version = "9", default-features = false }
rocket = { version = "0.5", features = ["json"] }
rocket_cors = "0.6"
serde = { version = "1", features = ["derive"] }
serde_json = "1"
sha2 = "0.10"
sqlx = { version = "0.7", default-features = false, features = ["mysql", "runtime-tokio"] }
tokio = { version = "1", features = ["fs", "io-util"] }
validator = { version = "0.16", features = ["derive"] }
