[package]
name = "alexandrie"
version = "0.1.0"
edition = "2021"
publish = false

[dependencies]
semver = { version = "0.9", features = ["serde"] }
byteorder = "1"
sha2 = "0.10"
hex = "0.4"
ring = "0.16"
flate2 = "1"
tar = "0.4"
chrono = { version = "0.4", features = ["serde"] }
serde = { version = "1", features = ["derive"] }
serde_json = "1"
toml = "0.5"
tide = "0.16"
async-std = { version = "1", features = ["attributes"] }
diesel = { version = "1.4", features = ["mysql", "r2d2", "chrono"] }
log = "0.4"
git2 = { version = "0.13", default-features = false }
