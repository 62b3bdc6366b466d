[package]
name = "perzine"
version = "0.1.0"
edition = "2021"
publish = false

[dependencies]
chrono = "0.4"
axum = { version = "0.5", features = ["headers"] }
sea-orm = { version = "0.9", features = ["macros", "with-json", "with-chrono"] }
serde = { version = "1", features = ["derive"] }
serde_json = "1"
serde_repr = "0.1"
serde-enum-str = "*"
tokio = { version = "1", features = ["rt", "rt-multi-thread", "macros"] }
jsonwebtoken = "8"
once_cell = "1"
config = { version = "0.13", default-features = false }
dotenv = "0.15"
