[package]
name = "proximityd"
version = "0.1.0"
edition = "2021"
publish = false

[dependencies]
anyhow = "=1.0.104"
atty = "=0.2.14"
chrono = "=0.4.45"
clap = { version = "=4.6.7", features = ["derive"] }
clap_complete = "=4.6.11"
clap_mangen = "=0.2.33"
crossterm = "=0.29.0"
directories = "=6.0.0"
glob = "=0.3.4"
indicatif = "=0.17.11"
num_cpus = "=1.17.0"
ratatui = "=0.30.2"
regex = "=1.13.1"
rusqlite = { version = "=0.41.1", features = ["bundled"] }
serde = { version = "=1.0.229", features = ["derive"] }
serde_json = "=1.0.154"
textwrap = "=0.16.4"
toml = "=1.1.8"
tracing = "=0.1.44"
tracing-subscriber = { version = "=0.3.23", features = ["env-filter"] }
uuid = { version = "=1.29.0", features = ["v4"] }
which = "=8.0.6"

[dev-dependencies]
tempfile = "=3.27.0"
