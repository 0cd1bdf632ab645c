[package]
name = "release_bridge"
version = "0.1.0"
edition = "2021"
publish = false

[dependencies]
rand = "=0.8.8"
dotenv = "=0.15.0"
futures = "=0.3.34"
serde = { version = "=1.0.229", features = ["derive"] }
serde_json = "=1.0.151"
tokio = { version = "=1.53.2", features = ["rt-multi-thread", "macros"] }
twilight-gateway = "=0.16.0"
twilight-http = "=0.16.0"
twilight-model = "=0.16.0"
twilight-util = { version = "=0.16.0", features = ["builder"] }
xitca-web = { version = "=0.7.1", features = ["codegen", "json", "logger"] }
