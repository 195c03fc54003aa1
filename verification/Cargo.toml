[package]
name = "cu"
version = "0.1.0"
edition = "2021"
publish = false

[dependencies]
regex = "1"
valid = "*"
validator = { version = "*", features = ["derive"] }
serde = { version = "1", features = ["derive"] }
serde_json = "1"
chrono = "0.4"
once_cell = "1"
sqlx = { version = "0.8", default-features = false, features = ["sqlite", "runtime-tokio", "derive"] }
tokio = { version = "1", features = ["rt-multi-thread", "macros", "time", "sync"] }
moka = { version = "0.12", features = ["future"] }
futures = "0.3"
reqwest = { version = "0.12", default-features = false, features = ["json"] }
async-trait = "0.1"
rand = "0.8"
clap = { version = "4", features = ["derive"] }
