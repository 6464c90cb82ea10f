[package]
name = "tachys"
version = "0.1.0"
edition = "2021"
publish = false

[dependencies]
url = "=2.5.8"
futures = { version = "=0.3.34", default-features = false, features = ["std"] }
web-sys = { version = "=0.3.107", features = ["Window", "Location", "Document", "Node", "Text", "CharacterData", "Element"] }
wasm-bindgen = "=0.2.130"
