[package]
name = "aleph_ordering"
version = "0.1.0"
edition = "2021"
publish = false

[dependencies]
aleph-bft = "*"
parity-scale-codec = { version = "*", features = ["derive"] }
futures = "*"
tokio = { version = "*", features = ["macros", "net", "rt-multi-thread", "time"] }
async-trait = "*"
clap = { version = "*", features = ["derive"] }
log = "*"
pretty_env_logger = "*"
anyhow = "*"
