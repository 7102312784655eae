[package]
name = "repo_rs"
version = "0.1.0"
edition = "2021"
publish = false

[dependencies]
clap = "2"
colored = "*"
dirs = "*"
futures = "*"
git2 = "*"
github_v3 = "*"
prettytable-rs = "*"
serde = "*"
serde_derive = "*"
serde_json = "*"
tokio = { version = "1", features = ["process", "macros", "rt-multi-thread"] }
