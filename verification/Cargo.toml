[package]
name = "todo_client"
version = "0.1.0"
edition = "2021"
publish = false

[dependencies]
chrono = "=0.4.45"
serde = { version = "=1.0.229", features = ["derive"] }
serde_json = "=1.0.154"
uuid = { version = "=1.29.0", features = ["v4"] }
lazy_static = "=1.5.1"
wasm-bindgen = "=0.2.129"
wasm-bindgen-futures = "=0.4.79"
web-sys = { version = "=0.3.106", features = ["HtmlInputElement"] }
gloo = "*"
reqwasm = "=0.5.0"
yew = { version = "*", features = ["csr"] }
yew-router = "*"
yewdux = "*"
stylist = { version = "*", features = ["yew_integration"] }
