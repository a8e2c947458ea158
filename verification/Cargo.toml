[package]
name = "dbrev"
version = "0.1.0"
edition = "2021"
publish = false

[dependencies]
clap = "*"
dotenv = "*"
postgres = "*"
rustyline = "*"
