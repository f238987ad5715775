[package]
name = "nanuak_dictionary"
version = "0.1.0"
edition = "2021"
publish = false

[dependencies]
async-trait = "*"
cloud_terrastodon_user_input = "*"
color-eyre = "*"
dialoguer = "*"
eyre = "*"
serde = { version = "1", features = ["derive"] }
serde_json = "1"
strum = { version = "*", features = ["derive"] }
tokio = { version = "1", features = ["full"] }
toml = "*"
tracing = "*"
tracing-subscriber = { version = "*", features = ["env-filter"] }
