[package]
name = "telegram_mcp"
version = "0.1.0"
edition = "2021"
publish = false

[dependencies]
anyhow = "=1.0.104"
async-trait = "=0.1.92"
chrono = "=0.4.45"
dialoguer = "=0.12.0"
directories = "=6.0.0"
glass_pumpkin = "=2.0.0-rc0"
grammers-client = "=0.10.0"
rmcp = { version = "=3.5.1", features = ["transport-io"] }
schemars = "=1.2.2"
secrecy = "=0.10.3"
serde = { version = "=1.0.229", features = ["derive"] }
thiserror = "=2.0.21"
tokio = { version = "=1.53.2", features = ["macros", "rt-multi-thread", "io-std", "io-util", "process", "time"] }
toml = "=1.1.6"
tracing = "=0.1.44"
tracing-subscriber = { version = "=0.3.23", features = ["env-filter", "fmt", "json"] }
