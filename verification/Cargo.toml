[package]
name = "wtm_select"
version = "0.1.0"
edition = "2021"
publish = false

[dependencies]
anyhow = "*"
chrono = "*"
clap = { version = "*", features = ["derive"] }
git2 = "*"
rayon = "*"
skim = "*"
