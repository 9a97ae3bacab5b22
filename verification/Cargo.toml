[package]
name = "arizona2"
version = "0.1.0"
edition = "2021"
publish = false

[dependencies]
uuid = { version = "=1.29.0", features = ["v7"] }
chrono = "=0.4.45"
rand = { version = "=0.8.8", features = ["small_rng"] }
serde = { version = "=1.0.229", features = ["derive"] }
serde_json = "=1.0.154"
clap = { version = "=4.6.7", features = ["derive"] }
dotenv = "=0.15.0"
tokio = { version = "=1.54.1", features = ["macros", "rt-multi-thread", "signal", "time"] }
reqwest = { version = "=0.12.28", default-features = false, features = ["json"] }
actix-web = { version = "=4.18.1", default-features = false, features = ["macros"] }
tokio-postgres = "0.7"
tracing = "0.1"
tracing-subscriber = { version = "0.3", features = ["env-filter"] }
tracing-appender = "0.2"
