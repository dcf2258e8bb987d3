[package]
name = "hr_osc_bridge"
version = "0.1.0"
edition = "2021"
publish = false

[dependencies]
rosc = "*"
bluest = "*"
chrono = "*"
futures-lite = "*"
tokio = { version = "*", features = ["macros", "rt-multi-thread"] }
