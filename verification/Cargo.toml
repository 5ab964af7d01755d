[package]
name = "test_tally"
version = "0.1.0"
edition = "2021"
publish = false

[dependencies]
serde_json = "1"
termion = "1.5"
