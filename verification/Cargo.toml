[package]
name = "pokedex"
version = "0.1.0"
edition = "2021"
publish = false

[dependencies]
arrayvec = "0.7"
dashmap = "*"
hashbrown = "*"
rand = "0.8"
serde = { version = "1", features = ["derive"] }
