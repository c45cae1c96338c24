[package]
name = "nivaro_backend"
version = "0.1.0"
edition = "2021"
publish = false

[dependencies]
bcrypt = "*"
chrono = "*"
jsonwebtoken = { version = "*", features = ["rust_crypto"] }
uuid = { version = "*", features = ["v4"] }
serde = { version = "*", features = ["derive"] }
serde_json = "*"
worker = { version = "*", features = ["d1"] }
wasm-bindgen = "*"
js-sys = "*"
console_error_panic_hook = "*"
