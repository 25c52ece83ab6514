[package]
name = "be-strom"
version = "0.1.0"
edition = "2021"
publish = false

[dependencies]
anyhow = "1"
eframe = { version = "*", default-features = false, features = ["glow", "x11", "default_fonts"] }
rand = "*"
rumqttc = { version = "*", default-features = false }
serde = { version = "1", features = ["derive"] }
serde_json = "1"
tokio = { version = "1", features = ["rt", "rt-multi-thread", "macros", "time"] }
tokio-modbus = { version = "*", default-features = false, features = ["tcp"] }
