[package]
name = "guild_matches"
version = "0.1.0"
edition = "2021"
publish = false

[dependencies]
chrono = "0.4"
graphql_client = "*"
log = "0.4"
pretty_env_logger = "*"
reqwest = { version = "*", features = ["json"] }
serde = { version = "1", features = ["derive"] }
tokio = { version = "1", features = ["macros", "rt-multi-thread", "time"] }
webhook = "*"
