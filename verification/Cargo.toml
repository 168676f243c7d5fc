[package]
name = "mononoke_util"
version = "0.1.0"
edition = "2021"
publish = false

[dependencies]
futures = "0.1"
failure = "0.1"
slog = "2"
