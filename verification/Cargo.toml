[package]
name = "now_playing"
version = "0.1.0"
edition = "2021"
publish = false

[dependencies]
chrono = { version = "=0.4.45", default-features = false, features = ["clock"] }
serde = { version = "=1.0.229", features = ["derive"] }
serde_json = "=1.0.151"
thiserror = "=2.0.21"
dotenvy = "=0.15.7"
envy = "=0.4.2"
tokio = { version = "=1.53.2", features = ["rt-multi-thread", "macros", "sync", "time"] }
tokio-stream = "=0.1.19"
reqwest = { version = "=0.13.5", default-features = false, features = ["json", "form"] }
sqlx = { version = "=0.9.0", default-features = false, features = ["mysql", "runtime-tokio"] }
poem = { version = "=3.1.12", features = ["sse", "static-files"] }
