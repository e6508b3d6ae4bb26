[package]
name = "ws_session"
version = "0.1.0"
edition = "2021"
publish = false

[dependencies]
uuid = { version = "1", features = ["v4"] }
log = "0.4"
actix = "0.13"
actix-web = "4"
actix-web-actors = "4"
pyo3 = "0.20"
pyo3-asyncio = "0.20"
