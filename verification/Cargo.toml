[package]
name = "tail-url"
version = "0.1.0"
edition = "2021"
publish = false

[dependencies]
argparse = "=0.2.2"
error-chain = "=0.12.4"
reqwest = { version = "=0.13.5", features = ["blocking"] }
