[package]
name = "bids_subset"
version = "0.1.0"
edition = "2021"
publish = false

[dependencies]
globwalk = "*"
ignore = "*"
globset = "*"
walkdir = "*"
clap = { version = "*", features = ["derive"] }
