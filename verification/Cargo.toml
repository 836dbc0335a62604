[package]
name = "async_ureq"
version = "0.1.0"
edition = "2021"
publish = false

[dependencies]
async-trait = "0.1"
blocking = "1"
bytes = "1"
futures-lite = "2"
serde = "1"
ureq = { version = "2", default-features = false, features = ["json"] }

[dev-dependencies]
form_urlencoded = "1"
