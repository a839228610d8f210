[package]
name = "leptos_winit"
version = "0.1.0"
edition = "2021"
publish = false

[dependencies]
leptos = "0.4"
leptos_dom = "0.4"
log = "0.4"
wasm-bindgen = "0.2"
web-sys = { version = "0.3", features = ["Document", "Element", "HtmlCanvasElement"] }
winit = "0.28"
