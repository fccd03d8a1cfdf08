[package]
name = "muswitch"
version = "0.1.0"
edition = "2021"
publish = false

[dependencies]
serde_json = "=1.0.151"
reqwest = { version = "=0.13.5", default-features = false, features = ["form", "query"] }
tokio = { version = "=1.53.2", features = ["rt", "rt-multi-thread", "macros", "sync"] }
clap = "=4.6.7"
dotenv = "=0.15.0"
chrono = "=0.4.45"
