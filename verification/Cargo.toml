[package]
name = "veebot_telegram"
version = "0.1.0"
edition = "2021"
publish = false

[dependencies]
nanoid = "=0.4.0"
teloxide = { version = "=0.12.2", default-features = false, features = ["macros"] }
# Not called by the bot: holds teloxide-core's dependency takecell at 0.1.1,
# since takecell 0.1.2 needs a newer rustc than the one that builds here.
takecell = "=0.1.1"
tokio = { version = "=1.54.1", features = ["rt", "sync", "time", "macros"] }
futures = "=0.3.34"
serde = { version = "=1.0.229", features = ["derive"] }
serde_json = "=1.0.154"
chrono = "=0.4.45"
once_cell = "=1.21.4"
parking_lot = "=0.12.5"
tracing = "=0.1.44"
reqwest = { version = "=0.11.27", default-features = false }
