[package]
name = "gql_logger"
version = "0.1.0"
edition = "2021"
publish = false

[dependencies]
rand = "0.8"
chrono = "0.4"
log = "0.4"
async-graphql = { version = "7", default-features = false }
async-trait = "0.1"
tokio = { version = "1", features = ["sync"] }
