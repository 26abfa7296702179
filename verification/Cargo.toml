[package]
name = "webui"
version = "0.1.0"
edition = "2021"
publish = false

[dependencies]
actix-cors = "*"
actix-files = "*"
actix-web = "4"
async-graphql = "*"
async-graphql-actix-web = "*"
dirs = "*"
mime_guess = "2"
owo-colors = "*"
rust-embed = "*"
tokio = { version = "1", features = ["sync"] }
