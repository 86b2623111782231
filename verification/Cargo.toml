[package]
name = "alacritty_theme_switcher"
version = "0.1.0"
edition = "2021"
publish = false

[dependencies]
toml = "*"
semver = "*"
anyhow = "*"
clap = { version = "*", features = ["derive"] }
itertools = "*"
tracing = "*"
tracing-subscriber = "*"
