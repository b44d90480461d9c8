[package]
name = "nitrogql"
version = "0.1.0"
edition = "2021"
publish = false

[dependencies]
graphql-parser = "0.4"
serde = { version = "1", features = ["derive"] }
