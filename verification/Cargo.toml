[package]
name = "shellmind"
version = "0.1.0"
edition = "2021"
publish = false

[dependencies]
ansi_term = "0.12"
anyhow = "1"
clap = { version = "4", features = ["derive"] }
config = { version = "0.14", default-features = false, features = ["toml"] }
dialoguer = "0.11"
dirs = "5"
dotenv = "0.15"
figlet-rs = "0.1"
glob = "0.3"
http = "1"
ignore = "0.4"
indicatif = "0.17"
prost = "0.13"
regex = "1"
reqwest = { version = "0.12", default-features = false, features = ["json", "rustls-tls"] }
rustyline = "14"
serde = { version = "1", features = ["derive"] }
serde_json = "1"
thiserror = "1"
tokio = { version = "1", features = ["full"] }
toml = "0.8"
tonic = "0.12"
walkdir = "2"
