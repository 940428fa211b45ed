[package]
name = "pc_tictactoe"
version = "1.0.0"
edition = "2021"
publish = false

[dependencies]
rand = "0.8"
pc-rl-core = "*"
serde = { version = "1", features = ["derive"] }
toml = "0.8"
clap = { version = "4", features = ["derive"] }
ctrlc = "3"
chrono = "0.4"
