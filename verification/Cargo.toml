[package]
name = "awto_compile"
version = "0.1.0"
edition = "2021"
publish = false

[dependencies]
anyhow = "*"
async-trait = "*"
clap = { version = "*", features = ["derive"] }
heck = "*"
log = "*"
proc-macro2 = "*"
syn = { version = "*", features = ["full"] }
tokio = { version = "*", features = ["fs", "macros", "rt", "rt-multi-thread"] }
toml = "*"
