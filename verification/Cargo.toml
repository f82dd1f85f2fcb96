[package]
name = "battle_cats_complete"
version = "0.1.0"
edition = "2021"
publish = false

[dependencies]
self_update = { version = "=1.3.3", default-features = false, features = ["ureq", "rustls", "github", "archive-zip", "compression-zip-deflate"] }
notify = "=8.2.1"
rustc-hash = "=2.1.3"
serde = { version = "=1.0.229", features = ["derive"] }
serde_json = "=1.0.154"
directories = "=6.0.0"
tracing = "=0.1.44"
tracing-subscriber = { version = "=0.3.23", features = ["env-filter"] }
open = "=5.4.5"
rayon = "=1.12.0"
