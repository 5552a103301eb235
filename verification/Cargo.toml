[package]
name = "mes_sync"
version = "0.1.0"
edition = "2021"
publish = false

[dependencies]
bcrypt = "0.15"
chrono = { version = "0.4", features = ["serde"] }
once_cell = "1"
rfd = { version = "0.15", default-features = false, features = ["xdg-portal", "tokio"] }
rusqlite = { version = "0.31", features = ["bundled"] }
serde = { version = "1", features = ["derive"] }
serde_json = "1"
sqlx = { version = "0.8", default-features = false, features = ["runtime-tokio", "postgres", "chrono", "json", "derive"] }
tokio = { version = "1", features = ["time", "process", "rt"] }
