[package]
name = "wparse"
version = "0.1.0"
edition = "2021"
publish = false

[dependencies]
flate2 = "*"
parse_wiki_text = "*"
serde = { version = "*", features = ["derive"] }
serde_json = "*"
