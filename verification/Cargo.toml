[package]
name = "wows_box"
version = "0.1.0"
edition = "2021"
publish = false

[dependencies]
anyhow = "=1.0.104"
async_once = "=0.2.6"
axum = "=0.8.9"
bson = "=2.15.0"
dotenvy = "=0.15.7"
env_logger = "=0.11.11"
futures = "=0.3.34"
headless_chrome = "=1.0.9"
itertools = "=0.15.0"
lazy_static = "=1.5.1"
log = "=0.4.34"
log4rs = "=1.4.0"
minijinja = "=2.24.0"
mongodb = "=3.9.1"
ordered-float = "=2.10.1"
reqwest = { version = "=0.13.5", features = ["json"] }
serde = { version = "=1.0.229", features = ["derive"] }
serde_json = "=1.0.151"
strsim = "=0.11.1"
tokio = { version = "=1.53.2", features = ["macros", "net", "rt-multi-thread"] }
uuid = { version = "=1.27.0", features = ["v4"] }
