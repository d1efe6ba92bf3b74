[package]
name = "growatt"
version = "0.1.0"
edition = "2021"
publish = false

[dependencies]
chrono = "=0.4.45"
dotenv = "=0.15.0"
hex = "=0.4.3"
md-5 = "=0.11.0"
reqwest = { version = "=0.13.5", default-features = false, features = ["json", "cookies", "form"] }
serde = { version = "*", features = ["derive"] }
serde_json = "*"
thiserror = "*"
tokio = { version = "*", features = ["macros", "rt-multi-thread"] }
