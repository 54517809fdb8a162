[package]
name = "liteapi"
version = "0.1.0"
edition = "2021"
publish = false

[dependencies]
tower = { version = "=0.4.13", features = ["util"] }
tokio = { version = "=1.54.1", features = ["net", "rt"] }
tokio-tower = "=0.6.0"
adnl = "=2.0.0"
async-trait = "=0.1.92"
futures = "0.3"
