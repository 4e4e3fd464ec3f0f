[package]
name = "jukebox"
version = "0.1.0"
edition = "2021"
publish = false

[dependencies]
console = "=0.16.6"
dialoguer = { version = "=0.10.4", features = ["fuzzy-select"] }
dirs = "=4.0.0"
futures = "=0.3.34"
indicatif = "=0.16.2"
librespot = { version = "=0.4.2", default-features = false }
rand = "=0.8.8"
reqwest = "=0.11.27"
serde = { version = "=1.0.229", features = ["derive"] }
serde_json = "=1.0.154"
text_io = "=0.1.13"
tokio = { version = "=1.54.1", features = ["macros", "rt-multi-thread"] }
