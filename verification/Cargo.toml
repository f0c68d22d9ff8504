[package]
name = "gh_backup"
version = "0.1.0"
edition = "2021"
publish = false

[dependencies]
argh = "*"
futures-util = "*"
git2 = { version = "*", default-features = false }
reqwest = { version = "*", default-features = false, features = ["json"] }
serde = { version = "*", features = ["derive"] }
serde_derive = "*"
tokio = { version = "*", features = ["rt-multi-thread", "macros"] }
