[package]
name = "vkrs"
version = "0.1.0"
edition = "2021"
publish = false

[dependencies]
chrono = { version = "=0.4.45", default-features = false, features = ["now"] }
hyper = "=0.10.16"
inth-oauth2 = "=0.12.0"
rustc-serialize = "=0.3.25"
serde = "=1.0.229"
serde_json = "=1.0.154"
url = "=1.7.2"
