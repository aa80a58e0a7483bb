[package]
name = "trailblazer"
version = "0.1.0"
edition = "2021"
publish = false

[dependencies]
hyper = { version = "1", features = ["full"] }
hyper-util = { version = "0.1", features = ["full"] }
http-body-util = "0.1"
tokio = { version = "1", features = ["full"] }
tower = { version = "0.5", features = ["util"] }
serde = { version = "1", features = ["derive"] }
serde_json = "1"
config = { version = "0.15", default-features = false, features = ["toml"] }
dotenv = "0.15"
futures = "0.3"
thiserror = "2"
