[package]
name = "mobilecli"
version = "0.1.0"
edition = "2021"
publish = false

[dependencies]
git2 = { version = "=0.21.0", features = ["https"] }
structopt = "=0.3.26"
