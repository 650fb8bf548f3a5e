[package]
name = "vectorizer"
version = "0.1.0"
edition = "2021"
publish = false

[dependencies]
bitflags = "1.3.2"
foreign-types = "0.3.2"
io-surface = "0.12.1"
log = "0.4"
metal = "0.20.0"
serde = { version = "1", features = ["derive"] }
