[package]
name = "worktree_setup"
version = "0.1.0"
edition = "2021"
publish = false

[dependencies]
clap = { version = "4", features = ["derive"] }
colored = "*"
dialoguer = "*"
git2 = { version = "*", default-features = false }
glob = "0.3"
indicatif = "*"
jwalk = "*"
log = "0.4"
pretty_env_logger = "*"
rayon = "1"
reflink-copy = "*"
serde = { version = "1", features = ["derive"] }
serde_json = "1"
thiserror = "*"
toml = "*"
