[package]
name = "hayagriva"
version = "0.1.0"
edition = "2021"
publish = false

[dependencies]
indexmap = { version = "2", features = ["serde"] }
isolang = "2"
serde = { version = "1", features = ["derive"] }
unic-langid = { version = "0.9", features = ["serde"] }
url = { version = "2", features = ["serde"] }
