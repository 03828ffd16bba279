[package]
name = "twitch_chat"
version = "0.1.0"
edition = "2021"
publish = false

[dependencies]
twitch_message = { version = "=0.1.2", features = ["std"] }
fastrand = "=2.5.0"
smol = "=2.0.2"
anyhow = "=1.0.104"
pin-project-lite = "=0.2.17"
simple_env_load = "=0.2.0"
anathema = "=0.2.11"
