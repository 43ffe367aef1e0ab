[package]
name = "leptos_cesium"
version = "0.1.0"
edition = "2021"
publish = false

[dependencies]
leptos = { version = "0.8", features = ["csr"] }
wasm-bindgen = "0.2"
js-sys = "0.3"
web-sys = { version = "0.3", features = ["HtmlElement", "Element", "Document", "Window", "console"] }
wasm-bindgen-futures = "0.4"
serde-wasm-bindgen = "0.6"
