[package]
name = "philharmonic_workflow"
version = "0.1.6"
edition = "2021"
publish = false

[dependencies]
async-trait = "*"
philharmonic-policy = "*"
philharmonic-store = "*"
philharmonic-types = "*"
serde = { version = "*", features = ["derive"] }
serde_json = "*"
thiserror = "*"
tracing = "*"
