[package]
name = "counter_service"
version = "0.1.0"
edition = "2021"
publish = false

[dependencies]
handlebars = "*"
warp = "0.3"
tokio = { version = "1", features = ["macros", "rt-multi-thread", "sync"] }
hyper = "0.14"
serde = { version = "1", features = ["derive"] }
serde_json = "1"
