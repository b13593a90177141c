[package]
name = "star_duel"
version = "0.1.0"
edition = "2021"
publish = false

[dependencies]
anyhow = "=1.0.104"
async-std = "=1.13.2"
bevy = { version = "=0.13.2", default-features = false }
bevy-async-ecs = "=0.5.1"
# Part of bevy. Named here to switch on its thread pool, without which
# `bevy::tasks` spawns no task that can be polled.
bevy_tasks = { version = "=0.13.2", features = ["multi-threaded"] }
clap = { version = "=4.6.7", features = ["derive"] }
derivative = "=2.2.0"
ehttp = { version = "=0.5.0", features = ["json", "native-async"] }
fastrand = "=2.5.0"
futures = "=0.3.34"
itertools = "=0.12.1"
serde = { version = "=1.0.229", features = ["derive"] }
serde_json = "=1.0.154"
thiserror = "=1.0.69"
uid = "=0.1.9"
uuid = { version = "=1.29.0", features = ["serde", "v4"] }
