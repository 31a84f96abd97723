[package]
name = "yadaw"
version = "0.1.0"
edition = "2021"
publish = false

[dependencies]
serde = { version = "=1.0.229", features = ["derive"] }
serde_json = "=1.0.154"
egui = "=0.37.0"
directories = "=6.0.0"
rand = "=0.9.5"
midly = "*"
flume = "*"
lru = "*"
rayon = "*"
num_cpus = "*"
parking_lot = "=0.12.5"
