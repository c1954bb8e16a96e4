[package]
name = "lounge_memo"
version = "0.1.0"
edition = "2021"
publish = false

[dependencies]
strsim = "=0.11.1"
kanaria = "=0.2.0"
template-matching = "=0.2.0"
image = "=0.24.9"
serde = { version = "=1.0.229", features = ["derive"] }
serde_json = "=1.0.151"
tokio = { version = "=1.53.2", features = ["sync", "rt", "rt-multi-thread", "macros", "time"] }
anyhow = "=1.0.104"
chrono = "=0.4.45"
toml = "=1.1.7"
