[package]
name = "audiobud"
version = "0.1.0"
edition = "2021"
publish = false

[dependencies]
regex = "1"
strsim = "0.11"
rphonetic = "*"
unicode-normalization = "0.1"
serde = { version = "1", features = ["derive"] }
serde_json = "1"
log = "0.4"
anyhow = "1"
once_cell = "1"
