[package]
name = "generic_cong_avoid"
version = "0.1.0"
edition = "2021"
publish = false

[dependencies]
portus = "*"
time = "*"
slog = "*"
clap = "*"
serde = { version = "1", features = ["derive"] }
reqwest = { version = "*", default-features = false, features = ["blocking", "json"] }
