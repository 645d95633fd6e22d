[package]
name = "service_lib"
version = "0.1.0"
edition = "2021"
publish = false

[dependencies]
sha2 = "=0.10.9"
base62 = "=0.3.0"
rand = "=0.8.5"
time = { version = "0.3", features = ["formatting", "parsing", "serde-well-known"] }
ulid = { version = "1", features = ["serde"] }
serde = { version = "1", features = ["derive"] }
axum = { version = "0.6", default-features = false, features = ["http1", "json", "tokio"] }
tokio = { version = "1", features = ["macros", "rt-multi-thread", "signal", "net"] }
tracing-subscriber = { version = "0.3", default-features = false, features = ["fmt", "std"] }
once_cell = "1"
