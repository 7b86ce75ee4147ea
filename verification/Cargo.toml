[package]
name = "simple_rpt"
version = "0.1.0"
edition = "2021"
publish = false

[dependencies]
glam = "*"
image = "*"
indicatif = "*"
palette = "*"
rand = "0.9"
rayon = "*"
serde = { version = "1", features = ["derive"] }
toml = "*"
