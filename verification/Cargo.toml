[package]
name = "lolfetch"
version = "0.1.0"
edition = "2021"
publish = false

[dependencies]
dirs = "*"
riven = "*"
tokio = { version = "*", features = ["macros", "rt-multi-thread"] }
clap = { version = "*", features = ["derive", "env"] }
serde = { version = "*", features = ["derive"] }
serde_json = "*"
anyhow = "*"
thiserror = "*"
termcolor = "*"
dotenv = "*"
log = "*"
reqwest = { version = "*", default-features = false, features = ["json", "rustls-tls"] }
