[package]
name = "voter_stake_registry"
version = "0.1.0"
edition = "2021"
publish = false

[dependencies]
anchor-lang = "=0.24.2"
anchor-spl = "=0.24.2"
spl-governance = { version = "=2.2.4", features = ["no-entrypoint"] }
clap = { version = "3", features = ["derive"] }
anyhow = "1"
