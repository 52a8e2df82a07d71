[package]
name = "playlist_sync"
version = "0.1.0"
edition = "2021"
publish = false

[dependencies]
csv = "=1.4.0"
serde = { version = "=1.0.229", features = ["derive"] }
serde_derive = "=1.0.229"
argparse = "=0.2.2"
failure = "=0.1.8"
rspotify = { version = "=0.12.0", default-features = false, features = ["client-ureq", "ureq-rustls-tls"] }
