[package]
name = "rnote_engine"
version = "0.1.0"
edition = "2021"
publish = false

[dependencies]
anyhow = "=1.0.104"
log = "=0.4.34"
parry2d-f64 = "=0.31.1"
piet = "=0.8.0"
rand = "=0.8.8"
rand_pcg = "=0.3.1"
serde = { version = "=1.0.229", features = ["derive"] }
