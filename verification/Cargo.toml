[package]
name = "jjkk"
version = "0.1.0"
edition = "2021"
publish = false

[dependencies]
anyhow = "=1.0.104"
crossterm = "=0.28.1"
dirs = "=7.0.0"
jj-lib = "=0.37.0"
kstring = "=2.0.2"
ratatui = "=0.29.0"
serde = { version = "=1.0.229", features = ["derive"] }
syntect = { version = "=5.3.0", default-features = false, features = ["default-fancy"] }
tokio = { version = "=1.54.1", features = ["macros", "rt-multi-thread"] }
toml = "=1.1.8"
tui-textarea = "=0.7.0"
