[package]
name = "rhizos_launcher"
version = "0.1.0"
edition = "2021"
publish = false

[dependencies]
directories = "5"
num_cpus = "1"
serde = { version = "1", features = ["derive"] }
serde_json = "1"
