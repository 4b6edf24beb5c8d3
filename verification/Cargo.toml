[package]
name = "sod"
version = "0.4.0"
edition = "2021"
publish = false

[dependencies]
actix = "=0.13.5"
actix-web = { version = "=4.18.1", default-features = false, features = ["ws"] }
actix-web-actors = "=4.3.1"
async-trait = "=0.1.92"
bus = "=2.4.1"
crossbeam = "=0.8.5"
futures = "=0.3.34"
log = "=0.4.34"
tungstenite = "=0.20.1"
