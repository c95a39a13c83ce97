[package]
name = "setui"
version = "0.1.0"
edition = "2021"
publish = false

[dependencies]
anyhow = "=1.0.104"
futures = "=0.3.34"
log = "=0.4.35"
paste = "=1.0.15"
serde = { version = "=1.0.229", features = ["derive"] }
fuchsia-zircon = "=0.3.3"
