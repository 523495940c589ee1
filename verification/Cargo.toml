[package]
name = "fastpotify"
version = "0.1.0"
edition = "2021"
publish = false

[dependencies]
anyhow = "=1.0.104"
egui = { version = "=0.33.3", default-features = false }
librespot-core = { version = "=0.8.0", default-features = false, features = ["rustls-tls-webpki-roots"] }
librespot-protocol = "=0.8.0"
log = "=0.4.35"
reqwest = { version = "=0.12.28", default-features = false, features = ["blocking", "rustls-tls"] }
serde = { version = "=1.0.229", features = ["derive"] }
serde_json = "=1.0.154"
tokio = { version = "=1.54.1", features = ["rt-multi-thread", "sync", "time", "fs", "macros"] }

[dev-dependencies]
# Keeps the build script of librespot-core on a version it compiles with.
vergen = { version = "=9.0.6", default-features = false }
