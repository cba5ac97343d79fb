[package]
name = "tracking_pixel"
version = "0.1.0"
edition = "2021"
publish = false

[dependencies]
png = "0.16"
chrono = "0.4"
tokio = { version = "1", features = ["macros", "rt-multi-thread"] }
warp = { version = "0.3", default-features = false }
