[package]
name = "pokebattle"
version = "0.1.0"
edition = "2021"
publish = false

[dependencies]
rand = "=0.8.8"
anyhow = "=1.0.104"
dirs = "=7.0.0"
ratatui = "=0.30.2"
rustyline = "=19.0.0"
serde = { version = "=1.0.229", features = ["derive"] }
skim = "=5.8.0"
toml = "=1.1.8"
