[package]
name = "single_instance_app"
version = "0.1.0"
edition = "2021"
publish = false

[dependencies]
rand = "0.8"
serde = { version = "1", features = ["derive"] }
serde_json = "1"
rmp-serde = "1"
memmap2 = "0.9"
tokio = { version = "1", features = ["full"] }
async-trait = "0.1"
libc = "0.2"
