[package]
name = "gitatlas"
version = "0.1.0"
edition = "2021"
publish = false

[dependencies]
anyhow = "1"
chrono = "0.4"
clap = { version = "4", features = ["derive"] }
comfy-table = "7"
console = "0.15"
crossterm = "0.28"
dirs-next = "2"
git2 = { version = "0.20", default-features = false }
ratatui = "0.29"
rayon = "1"
serde = { version = "1", features = ["derive"] }
serde_json = "1"
ssh2-config = "0.7"
thiserror = "2"
