[package]
name = "hustle_tracker"
version = "0.1.0"
edition = "2021"
publish = false

[dependencies]
anyhow = "1"
log = "0.4"
sha2 = "0.10"
sqlx = { version = "0.8", default-features = false, features = ["runtime-tokio", "postgres", "chrono", "json"] }
wayland-client = "0.31"
wayland-protocols = { version = "0.31", features = ["client", "staging"] }
