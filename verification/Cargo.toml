[package]
name = "actix_slog"
version = "0.1.0"
edition = "2021"
publish = false

[dependencies]
actix-web = { version = "3", default-features = false }
chrono = { version = "0.4", default-features = false, features = ["clock", "std"] }
futures = "0.3"
pin-project = "1"
slog = "2"
